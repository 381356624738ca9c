//! Mining pool support: work packages handed out to miners, and the shares they
//! submit, counted per miner. Work packages and miner accounts are kept in
//! `dashmap` maps.

use crate::clock::{instant_now, system_time_now, unix_secs};
use crate::digest::copy_bytes;
use dashmap::DashMap;
use std::time::Instant;
use vstd::prelude::*;

verus! {

/// A concurrent map of the `dashmap` crate, carried through opaquely.
#[verifier::external_type_specification]
#[verifier::external_body]
#[verifier::reject_recursive_types(K)]
#[verifier::reject_recursive_types(V)]
#[verifier::reject_recursive_types(S)]
pub struct ExDashMap<K, V, S>(DashMap<K, V, S>);

/// Work package for miners
#[derive(Debug)]
pub struct WorkPackage {
    /// Unique work ID
    pub work_id: u64,
    /// Block header data
    pub header: Vec<u8>,
    /// Target difficulty
    pub target: u64,
    /// Chain ID
    pub chain_id: u32,
    /// Creation timestamp, in seconds since the Unix epoch
    pub created_at: u64,
}

/// Miner share submission
#[derive(Debug)]
pub struct MinerShare {
    /// Work ID
    pub work_id: u64,
    /// Nonce found by miner
    pub nonce: u64,
    /// Miner address
    pub miner_address: Vec<u8>,
    /// Submission timestamp
    pub submitted_at: u64,
}

/// Miner account information
#[derive(Debug)]
pub struct MinerAccount {
    /// Miner address
    pub address: Vec<u8>,
    /// Total shares submitted
    pub total_shares: u64,
    /// Valid shares
    pub valid_shares: u64,
    /// Invalid shares
    pub invalid_shares: u64,
    /// Last activity timestamp
    pub last_activity: Instant,
}

/// Mining pool statistics
#[derive(Debug, Clone, Copy)]
pub struct PoolStats {
    /// Total work packages distributed
    pub total_work_packages: u64,
    /// Total shares received
    pub total_shares: u64,
    /// Valid shares
    pub valid_shares: u64,
    /// Invalid shares
    pub invalid_shares: u64,
    /// Number of active miners
    pub active_miners: usize,
}

impl WorkPackage {
    /// Two packages agree field by field, the header compared by content.
    pub open spec fn same_as(&self, other: &WorkPackage) -> bool {
        &&& self.work_id == other.work_id
        &&& self.header@ == other.header@
        &&& self.target == other.target
        &&& self.chain_id == other.chain_id
        &&& self.created_at == other.created_at
    }

    /// A copy of the package.
    pub fn copy(&self) -> (w: Self)
        ensures
            w.same_as(self),
    {
        WorkPackage {
            work_id: self.work_id,
            header: copy_bytes(self.header.as_slice()),
            target: self.target,
            chain_id: self.chain_id,
            created_at: self.created_at,
        }
    }
}

impl MinerAccount {
    /// Two accounts agree on everything but the moment of last activity, the
    /// address compared by content.
    pub open spec fn same_counts(&self, other: &MinerAccount) -> bool {
        &&& self.address@ == other.address@
        &&& self.total_shares == other.total_shares
        &&& self.valid_shares == other.valid_shares
        &&& self.invalid_shares == other.invalid_shares
    }

    /// Create a new miner account
    pub fn new(address: Vec<u8>) -> (a: Self)
        ensures
            a.address == address,
            a.total_shares == 0,
            a.valid_shares == 0,
            a.invalid_shares == 0,
    {
        MinerAccount {
            address,
            total_shares: 0,
            valid_shares: 0,
            invalid_shares: 0,
            last_activity: instant_now(),
        }
    }

    /// A copy of the account.
    pub fn copy(&self) -> (a: Self)
        ensures
            a.same_counts(self),
            a.last_activity == self.last_activity,
    {
        MinerAccount {
            address: copy_bytes(self.address.as_slice()),
            total_shares: self.total_shares,
            valid_shares: self.valid_shares,
            invalid_shares: self.invalid_shares,
            last_activity: self.last_activity,
        }
    }

    /// Record a valid share
    pub fn record_valid_share(&mut self)
        requires
            old(self).total_shares < u64::MAX,
            old(self).valid_shares < u64::MAX,
        ensures
            *final(self) == (MinerAccount {
                total_shares: (old(self).total_shares + 1) as u64,
                valid_shares: (old(self).valid_shares + 1) as u64,
                last_activity: final(self).last_activity,
                ..*old(self)
            }),
    {
        self.total_shares = self.total_shares + 1;
        self.valid_shares = self.valid_shares + 1;
        self.last_activity = instant_now();
    }

    /// Record an invalid share
    pub fn record_invalid_share(&mut self)
        requires
            old(self).total_shares < u64::MAX,
            old(self).invalid_shares < u64::MAX,
        ensures
            *final(self) == (MinerAccount {
                total_shares: (old(self).total_shares + 1) as u64,
                invalid_shares: (old(self).invalid_shares + 1) as u64,
                last_activity: final(self).last_activity,
                ..*old(self)
            }),
    {
        self.total_shares = self.total_shares + 1;
        self.invalid_shares = self.invalid_shares + 1;
        self.last_activity = instant_now();
    }
}

/// The map of current work packages, by work ID.
pub type WorkMap = DashMap<u64, WorkPackage>;

/// The map of miner accounts, by address.
pub type MinerMap = DashMap<Vec<u8>, MinerAccount>;

/// The work packages a `dashmap` map of work packages holds, by work ID.
pub uninterp spec fn work_table(m: DashMap<u64, WorkPackage>) -> Map<u64, WorkPackage>;

/// The miner accounts a `dashmap` map of accounts holds, by address.
pub uninterp spec fn miner_table(m: DashMap<Vec<u8>, MinerAccount>) -> Map<Seq<u8>, MinerAccount>;

/// Calls `DashMap::new`; the map made holds no work package.
#[verifier::external_body]
fn work_map_new() -> (fresh: WorkMap)
    ensures
        work_table(fresh).dom().is_empty(),
{
    DashMap::new()
}

/// Calls `DashMap::insert`: afterwards the map holds `value` under `key`, and
/// every other entry as before.
#[verifier::external_body]
fn work_map_insert(m: &mut DashMap<u64, WorkPackage>, key: u64, value: WorkPackage)
    ensures
        work_table(*final(m)) == work_table(*old(m)).insert(key, value),
{
    m.insert(key, value);
}

/// Calls `DashMap::contains_key`: whether the map holds a package under `key`.
#[verifier::external_body]
fn work_map_contains(m: &DashMap<u64, WorkPackage>, key: u64) -> (r: bool)
    ensures
        r == work_table(*m).contains_key(key),
{
    m.contains_key(&key)
}

/// Whether a package is still current at `now`: younger than `max_age_secs`,
/// its age taken with wrap-around subtraction.
pub open spec fn is_current(w: WorkPackage, now: u64, max_age_secs: u64) -> bool {
    now - w.created_at < max_age_secs
}

/// Whether a package created no later than `now` is still current at `now`.
pub fn work_is_current(w: &WorkPackage, now: u64, max_age_secs: u64) -> (r: bool)
    requires
        w.created_at <= now,
    ensures
        r == is_current(*w, now, max_age_secs),
{
    now - w.created_at < max_age_secs
}

/// Every package of the table was created no later than `now`.
pub open spec fn created_by(table: Map<u64, WorkPackage>, now: u64) -> bool {
    forall|k: u64| #[trigger] table.contains_key(k) ==> table[k].created_at <= now
}

/// The packages of a table that are current at `now`.
pub open spec fn current_work(
    table: Map<u64, WorkPackage>,
    now: u64,
    max_age_secs: u64,
) -> Map<u64, WorkPackage> {
    table.restrict(table.dom().filter(|k: u64| is_current(table[k], now, max_age_secs)))
}

/// Calls `DashMap::retain` with a predicate that keeps the packages current at
/// `now` (decided by `work_is_current`) and leaves them unchanged: afterwards the
/// map holds exactly those packages.
#[verifier::external_body]
fn work_map_retain_current(m: &mut DashMap<u64, WorkPackage>, now: u64, max_age_secs: u64)
    requires
        created_by(work_table(*old(m)), now),
    ensures
        work_table(*final(m)) == current_work(work_table(*old(m)), now, max_age_secs),
{
    m.retain(|_, w| work_is_current(w, now, max_age_secs));
}

/// Calls `DashMap::new`; the map made holds no account.
#[verifier::external_body]
fn miner_map_new() -> (fresh: MinerMap)
    ensures
        miner_table(fresh).dom().is_empty(),
{
    DashMap::new()
}

/// Calls `DashMap::get` and copies the account found with `MinerAccount::copy`:
/// the result is a copy of the account held under `key`, if any.
#[verifier::external_body]
fn miner_map_get(m: &DashMap<Vec<u8>, MinerAccount>, key: &[u8]) -> (r: Option<MinerAccount>)
    ensures
        r is Some <==> miner_table(*m).contains_key(key@),
        r matches Some(a) ==> a.same_counts(&miner_table(*m)[key@]) && a.last_activity
            == miner_table(*m)[key@].last_activity,
{
    m.get(key).map(|a| a.value().copy())
}

/// Calls `DashMap::insert`: afterwards the map holds `value` under the content of
/// `key`, and every other entry as before.
#[verifier::external_body]
fn miner_map_insert(m: &mut DashMap<Vec<u8>, MinerAccount>, key: Vec<u8>, value: MinerAccount)
    ensures
        miner_table(*final(m)) == miner_table(*old(m)).insert(key@, value),
{
    m.insert(key, value);
}

/// Calls `DashMap::len`: the number of accounts the map holds.
#[verifier::external_body]
fn miner_map_len(m: &DashMap<Vec<u8>, MinerAccount>) -> (n: usize)
    ensures
        n == miner_table(*m).dom().len(),
{
    m.len()
}

/// Mining pool manager
pub struct MiningPoolManager {
    work_packages: DashMap<u64, WorkPackage>,
    miners: DashMap<Vec<u8>, MinerAccount>,
    stats: PoolStats,
    next_work_id: u64,
    newest_stamp: u64,
}

impl MiningPoolManager {
    /// The work packages handed out and not yet cleaned up, by work ID
    pub closed spec fn work(&self) -> Map<u64, WorkPackage> {
        work_table(self.work_packages)
    }

    /// The miner accounts, by address
    pub closed spec fn miner_accounts(&self) -> Map<Seq<u8>, MinerAccount> {
        miner_table(self.miners)
    }

    /// The pool statistics
    pub closed spec fn pool_stats(&self) -> PoolStats {
        self.stats
    }

    /// The ID the next work package gets
    pub closed spec fn next_id(&self) -> u64 {
        self.next_work_id
    }

    /// The latest creation time of any package handed out, in seconds since the
    /// Unix epoch (0 before the first)
    pub closed spec fn newest_stamp(&self) -> u64 {
        self.newest_stamp
    }

    /// Every account sits under its own address, and no package was created after
    /// the newest stamp.
    pub closed spec fn wf(&self) -> bool {
        &&& created_by(work_table(self.work_packages), self.newest_stamp)
        &&& miner_table(self.miners).dom().finite()
        &&& forall|k: Seq<u8>| #[trigger]
            miner_table(self.miners).contains_key(k) ==> miner_table(self.miners)[k].address@ == k
    }

    /// Create a new mining pool manager
    pub fn new() -> (p: Self)
        ensures
            p.wf(),
            p.work() == Map::<u64, WorkPackage>::empty(),
            p.miner_accounts() == Map::<Seq<u8>, MinerAccount>::empty(),
            p.pool_stats() == (PoolStats {
                total_work_packages: 0,
                total_shares: 0,
                valid_shares: 0,
                invalid_shares: 0,
                active_miners: 0,
            }),
            p.next_id() == 1,
            p.newest_stamp() == 0,
    {
        let work_packages = work_map_new();
        let miners = miner_map_new();
        proof {
            assert(work_table(work_packages) =~= Map::empty());
            assert(miner_table(miners) =~= Map::empty());
        }
        MiningPoolManager {
            work_packages,
            miners,
            stats: PoolStats {
                total_work_packages: 0,
                total_shares: 0,
                valid_shares: 0,
                invalid_shares: 0,
                active_miners: 0,
            },
            next_work_id: 1,
            newest_stamp: 0,
        }
    }

    /// Distribute a work package to miners: it gets the next work ID and the
    /// current time, and is kept until cleaned up. IDs wrap around at `u64::MAX`.
    pub fn distribute_work(&mut self, header: Vec<u8>, target: u64, chain_id: u32) -> (w:
        WorkPackage)
        requires
            old(self).wf(),
            old(self).pool_stats().total_work_packages < u64::MAX,
        ensures
            final(self).wf(),
            w.work_id == old(self).next_id(),
            w.header@ == header@,
            w.target == target,
            w.chain_id == chain_id,
            final(self).next_id() == old(self).next_id().wrapping_add(1),
            final(self).work() == old(self).work().insert(w.work_id, final(self).work()[w.work_id]),
            final(self).work()[w.work_id].same_as(&w),
            final(self).miner_accounts() == old(self).miner_accounts(),
            final(self).pool_stats() == (PoolStats {
                total_work_packages: (old(self).pool_stats().total_work_packages + 1) as u64,
                ..old(self).pool_stats()
            }),
            final(self).newest_stamp() == if w.created_at > old(self).newest_stamp() {
                w.created_at
            } else {
                old(self).newest_stamp()
            },
    {
        let work_id = self.next_work_id;
        self.next_work_id = work_id.wrapping_add(1);
        let now = system_time_now();
        let created_at = unix_secs(&now);
        if created_at > self.newest_stamp {
            self.newest_stamp = created_at;
        }
        let work = WorkPackage { work_id, header, target, chain_id, created_at };
        let out = work.copy();
        work_map_insert(&mut self.work_packages, work_id, work);
        self.stats.total_work_packages = self.stats.total_work_packages + 1;
        out
    }

    /// Submit a miner share: refused where its work package is unknown; else the
    /// miner's account (made where it has none) counts a valid share.
    pub fn submit_share(&mut self, share: MinerShare) -> (accepted: bool)
        requires
            old(self).wf(),
            old(self).pool_stats().total_shares < u64::MAX,
            old(self).pool_stats().valid_shares < u64::MAX,
            old(self).miner_accounts().contains_key(share.miner_address@) ==> {
                &&& old(self).miner_accounts()[share.miner_address@].total_shares < u64::MAX
                &&& old(self).miner_accounts()[share.miner_address@].valid_shares < u64::MAX
            },
        ensures
            final(self).wf(),
            accepted == old(self).work().contains_key(share.work_id),
            final(self).work() == old(self).work(),
            final(self).next_id() == old(self).next_id(),
            !accepted ==> final(self).miner_accounts() == old(self).miner_accounts()
                && final(self).pool_stats() == old(self).pool_stats(),
            accepted ==> {
                let key = share.miner_address@;
                let post = final(self).miner_accounts()[key];
                &&& final(self).miner_accounts() == old(self).miner_accounts().insert(key, post)
                &&& post.address@ == key
                &&& old(self).miner_accounts().contains_key(key) ==> {
                    let pre = old(self).miner_accounts()[key];
                    &&& post.total_shares == pre.total_shares + 1
                    &&& post.valid_shares == pre.valid_shares + 1
                    &&& post.invalid_shares == pre.invalid_shares
                }
                &&& !old(self).miner_accounts().contains_key(key) ==> {
                    &&& post.total_shares == 1
                    &&& post.valid_shares == 1
                    &&& post.invalid_shares == 0
                }
                &&& final(self).pool_stats() == (PoolStats {
                    total_shares: (old(self).pool_stats().total_shares + 1) as u64,
                    valid_shares: (old(self).pool_stats().valid_shares + 1) as u64,
                    active_miners: final(self).miner_accounts().dom().len() as usize,
                    ..old(self).pool_stats()
                })
                &&& final(self).miner_accounts().dom().finite()
            },
    {
        if !work_map_contains(&self.work_packages, share.work_id) {
            return false;
        }
        let mut miner = match miner_map_get(&self.miners, share.miner_address.as_slice()) {
            Some(a) => a,
            None => MinerAccount::new(copy_bytes(share.miner_address.as_slice())),
        };
        miner.record_valid_share();
        miner_map_insert(&mut self.miners, share.miner_address, miner);
        self.stats.total_shares = self.stats.total_shares + 1;
        self.stats.valid_shares = self.stats.valid_shares + 1;
        self.stats.active_miners = miner_map_len(&self.miners);
        true
    }

    /// Get miner account
    pub fn get_miner(&self, address: &[u8]) -> (r: Option<MinerAccount>)
        ensures
            r is Some <==> self.miner_accounts().contains_key(address@),
            r matches Some(a) ==> a.same_counts(&self.miner_accounts()[address@]),
    {
        miner_map_get(&self.miners, address)
    }

    /// Get pool statistics
    pub fn get_stats(&self) -> (s: PoolStats)
        ensures
            s == self.pool_stats(),
    {
        self.stats
    }

    /// Removes the work packages that are not current at `now`, a time no earlier
    /// than any package's creation.
    pub fn cleanup_old_work_at(&mut self, now: u64, max_age_secs: u64)
        requires
            old(self).wf(),
            created_by(old(self).work(), now),
        ensures
            final(self).wf(),
            final(self).newest_stamp() == old(self).newest_stamp(),
            final(self).work() == current_work(old(self).work(), now, max_age_secs),
            final(self).miner_accounts() == old(self).miner_accounts(),
            final(self).pool_stats() == old(self).pool_stats(),
            final(self).next_id() == old(self).next_id(),
    {
        work_map_retain_current(&mut self.work_packages, now, max_age_secs);
    }

    /// Clean up old work packages: those created `max_age_secs` or more seconds
    /// before the current time. Where the wall clock reads earlier than the newest
    /// package's creation, that creation time is taken as the current time.
    pub fn cleanup_old_work(&mut self, max_age_secs: u64)
        requires
            old(self).wf(),
        ensures
            final(self).wf(),
            final(self).newest_stamp() == old(self).newest_stamp(),
            exists|now: u64|
                now >= old(self).newest_stamp() && final(self).work() == #[trigger] current_work(
                    old(self).work(),
                    now,
                    max_age_secs,
                ),
            final(self).miner_accounts() == old(self).miner_accounts(),
            final(self).pool_stats() == old(self).pool_stats(),
            final(self).next_id() == old(self).next_id(),
    {
        let t = system_time_now();
        let read = unix_secs(&t);
        let now = if read < self.newest_stamp {
            self.newest_stamp
        } else {
            read
        };
        self.cleanup_old_work_at(now, max_age_secs);
    }

    /// Get active miner count
    pub fn active_miner_count(&self) -> (n: usize)
        requires
            self.wf(),
        ensures
            self.miner_accounts().dom().finite(),
            n == self.miner_accounts().dom().len(),
    {
        miner_map_len(&self.miners)
    }
}

impl Default for MiningPoolManager {
    fn default() -> (p: Self)
        ensures
            p.wf(),
            p.work() == Map::<u64, WorkPackage>::empty(),
            p.miner_accounts() == Map::<Seq<u8>, MinerAccount>::empty(),
            p.next_id() == 1,
    {
        Self::new()
    }
}

/// Cleaning up keeps exactly the packages that are current, unchanged: none is
/// added, and a package survives if and only if it is younger than the limit.
pub proof fn law_cleanup_keeps_current(table: Map<u64, WorkPackage>, now: u64, max_age_secs: u64, id: u64)
    ensures
        current_work(table, now, max_age_secs).contains_key(id) <==> (table.contains_key(id)
            && is_current(table[id], now, max_age_secs)),
        current_work(table, now, max_age_secs).contains_key(id) ==> current_work(
            table,
            now,
            max_age_secs,
        )[id] == table[id],
{
}

/// Cleaning up at `now` with a maximum age keeps exactly the packages younger
/// than that age: a package `now - created_at` seconds old survives if and only if
/// that age is below the maximum, and then unchanged; an older or equally old
/// package never survives while a younger one is removed.
pub proof fn law_cleanup_by_age(table: Map<u64, WorkPackage>, now: u64, max_age_secs: u64, id: u64, other: u64)
    requires
        created_by(table, now),
    ensures
        current_work(table, now, max_age_secs).contains_key(id) <==> (table.contains_key(id)
            && now - table[id].created_at < max_age_secs),
        table.contains_key(id) && now - table[id].created_at >= max_age_secs ==> !current_work(
            table,
            now,
            max_age_secs,
        ).contains_key(id),
        table.contains_key(id) && table.contains_key(other) && table[id].created_at
            <= table[other].created_at && current_work(table, now, max_age_secs).contains_key(id)
            ==> current_work(table, now, max_age_secs).contains_key(other),
{
}

} // verus!
