//! Peer discovery bookkeeping over a Kademlia DHT: the queries in flight, the
//! bootstrap peers and schedule, and what each query's outcome means. Peers are
//! identified by the bytes of their peer ID and queries by their number; the DHT
//! itself runs outside the library.

use crate::clock::{instant_now, secs_since};
use crate::digest::copy_bytes;
use crate::error::NetworkError;
use crate::peer_order::{byte_views, sort_unique, strictly_sorted};
use crate::text::{decimal, u64_to_decimal};
use multiaddr::Multiaddr;
use std::collections::HashMap;
use std::time::Instant;
use vstd::prelude::*;

verus! {

broadcast use vstd::std_specs::hash::group_hash_axioms;

/// A network address, carried through opaquely.
#[verifier::external_type_specification]
#[verifier::external_body]
pub struct ExMultiaddr(multiaddr::Multiaddr);

/// Type of discovery query
#[derive(Debug)]
pub enum DiscoveryQuery {
    /// Bootstrap query
    Bootstrap,
    /// Find peer query, for the peer with this ID
    FindPeer(Vec<u8>),
    /// Get providers query
    GetProviders {
        /// Content key to find providers for
        key: Vec<u8>,
    },
}

/// What a successful providers query found.
#[derive(Debug)]
pub enum ProvidersOutcome {
    /// Providers were found: their peer IDs, in any order
    FoundProviders(Vec<Vec<u8>>),
    /// No provider was found: the peers closest to the key
    FinishedWithNoAdditionalRecord(Vec<Vec<u8>>),
}

/// The outcome the DHT reported for a query; an error carries the text of the
/// DHT's error.
#[derive(Debug)]
pub enum QueryOutcome {
    /// A bootstrap finished: the number of buckets still to refresh, or an error
    Bootstrap(Result<u32, String>),
    /// A closest-peers search finished: the peers found, or an error
    GetClosestPeers(Result<Vec<Vec<u8>>, String>),
    /// A providers search finished
    GetProviders(Result<ProvidersOutcome, String>),
    /// Any other kind of query finished
    Other,
}

/// Result of a discovery query
#[derive(Debug)]
pub enum DiscoveryResult {
    /// Bootstrap completed
    Bootstrap {
        /// Number of peers found
        num_peers: usize,
    },
    /// Find peer completed
    FindPeer {
        /// Target peer ID
        target: Vec<u8>,
        /// Closest peers found
        peers: Vec<Vec<u8>>,
    },
    /// Get providers completed
    GetProviders {
        /// Key
        key: Vec<u8>,
        /// Providers found, sorted by peer ID, each once
        providers: Vec<Vec<u8>>,
    },
}

/// Default time between bootstraps, in seconds (5 minutes).
pub const DEFAULT_BOOTSTRAP_INTERVAL_SECS: u64 = 300;

/// The peers a providers query reports.
pub open spec fn reported_peers(f: ProvidersOutcome) -> Seq<Vec<u8>> {
    match f {
        ProvidersOutcome::FoundProviders(p) => p@,
        ProvidersOutcome::FinishedWithNoAdditionalRecord(p) => p@,
    }
}

/// The text of the error for a query number that is not pending.
pub open spec fn unknown_query_text(id: u64) -> Seq<char> {
    "Unknown query ID: QueryId("@ + decimal(id as nat) + ")"@
}

/// Whether `r` answers the outcome `o` of the pending query `q`: an outcome of the
/// query's own kind gives its result or a discovery error that quotes the DHT's;
/// an outcome of another kind is unexpected. The providers found are listed
/// sorted by peer ID, each once.
pub open spec fn query_answer(
    q: DiscoveryQuery,
    o: QueryOutcome,
    r: Result<DiscoveryResult, NetworkError>,
) -> bool {
    match q {
        DiscoveryQuery::Bootstrap => match o {
            QueryOutcome::Bootstrap(Ok(n)) => r matches Ok(DiscoveryResult::Bootstrap { num_peers })
                && num_peers == n,
            QueryOutcome::Bootstrap(Err(e)) => r matches Err(NetworkError::Discovery(s)) && s@
                == "Bootstrap failed: "@ + e@,
            _ => r matches Err(NetworkError::Discovery(s)) && s@ == "Unexpected query result"@,
        },
        DiscoveryQuery::FindPeer(t) => match o {
            QueryOutcome::GetClosestPeers(Ok(ps)) => r matches Ok(
                DiscoveryResult::FindPeer { target, peers },
            ) && target@ == t@ && byte_views(peers@) == byte_views(ps@),
            QueryOutcome::GetClosestPeers(Err(e)) => r matches Err(NetworkError::Discovery(s)) && s@
                == "Find peer failed: "@ + e@,
            _ => r matches Err(NetworkError::Discovery(s)) && s@ == "Unexpected query result"@,
        },
        DiscoveryQuery::GetProviders { key } => match o {
            QueryOutcome::GetProviders(Ok(f)) => r matches Ok(
                DiscoveryResult::GetProviders { key: k, providers },
            ) && k@ == key@ && strictly_sorted(byte_views(providers@)) && byte_views(
                providers@,
            ).to_set() == byte_views(reported_peers(f)).to_set(),
            QueryOutcome::GetProviders(Err(e)) => r matches Err(NetworkError::Discovery(s)) && s@
                == "Get providers failed: "@ + e@,
            _ => r matches Err(NetworkError::Discovery(s)) && s@ == "Unexpected query result"@,
        },
    }
}

/// `prefix` followed by `text`.
pub fn with_prefix(prefix: &str, text: &str) -> (s: String)
    ensures
        s@ == prefix@ + text@,
{
    let mut s = String::from_str(prefix);
    s.append(text);
    s
}

/// The error text for a query number that is not pending.
pub fn unknown_query_message(id: u64) -> (s: String)
    ensures
        s@ == unknown_query_text(id),
{
    let mut s = String::from_str("Unknown query ID: QueryId(");
    let n = u64_to_decimal(id);
    s.append(n.as_str());
    s.append(")");
    s
}

/// A copy of a list of peer IDs.
pub fn copy_peer_list(peers: &Vec<Vec<u8>>) -> (out: Vec<Vec<u8>>)
    ensures
        byte_views(out@) == byte_views(peers@),
{
    let mut out: Vec<Vec<u8>> = Vec::new();
    let mut i: usize = 0;
    while i < peers.len()
        invariant
            i <= peers@.len(),
            out@.len() == i,
            forall|j: int| 0 <= j < i ==> #[trigger] out@[j]@ == peers@[j]@,
        decreases peers@.len() - i,
    {
        out.push(copy_bytes(peers[i].as_slice()));
        i = i + 1;
    }
    proof {
        assert(byte_views(out@) =~= byte_views(peers@));
    }
    out
}

/// Peer discovery using Kademlia DHT
pub struct PeerDiscovery {
    pending_queries: HashMap<u64, DiscoveryQuery>,
    bootstrap_peers: Vec<(Vec<u8>, Multiaddr)>,
    last_bootstrap: Option<Instant>,
    bootstrap_interval: u64,
}

impl PeerDiscovery {
    /// The queries in flight, by query number
    pub closed spec fn pending(&self) -> Map<u64, DiscoveryQuery> {
        self.pending_queries@
    }

    /// The bootstrap peers: peer ID and address, in the order they were added
    pub closed spec fn bootstrap_list(&self) -> Seq<(Vec<u8>, Multiaddr)> {
        self.bootstrap_peers@
    }

    /// Whether a bootstrap has been started
    pub closed spec fn bootstrapped(&self) -> bool {
        self.last_bootstrap is Some
    }

    /// The time between bootstraps, in seconds
    pub closed spec fn interval(&self) -> u64 {
        self.bootstrap_interval
    }

    /// Create a new PeerDiscovery, bootstrapping every five minutes
    pub fn new(bootstrap_peers: Vec<(Vec<u8>, Multiaddr)>) -> (d: Self)
        ensures
            d.pending() == Map::<u64, DiscoveryQuery>::empty(),
            d.bootstrap_list() == bootstrap_peers@,
            !d.bootstrapped(),
            d.interval() == DEFAULT_BOOTSTRAP_INTERVAL_SECS,
    {
        PeerDiscovery {
            pending_queries: HashMap::new(),
            bootstrap_peers,
            last_bootstrap: None,
            bootstrap_interval: DEFAULT_BOOTSTRAP_INTERVAL_SECS,
        }
    }

    /// Add a bootstrap peer
    pub fn add_bootstrap_peer(&mut self, peer_id: Vec<u8>, address: Multiaddr)
        ensures
            final(self).bootstrap_list() == old(self).bootstrap_list().push((peer_id, address)),
            final(self).pending() == old(self).pending(),
            final(self).bootstrapped() == old(self).bootstrapped(),
            final(self).interval() == old(self).interval(),
    {
        self.bootstrap_peers.push((peer_id, address));
    }

    /// Start a bootstrap query, noting the time it started
    pub fn start_bootstrap(&mut self, query_id: u64)
        ensures
            final(self).pending() == old(self).pending().insert(query_id, DiscoveryQuery::Bootstrap),
            final(self).bootstrapped(),
            final(self).bootstrap_list() == old(self).bootstrap_list(),
            final(self).interval() == old(self).interval(),
    {
        self.pending_queries.insert(query_id, DiscoveryQuery::Bootstrap);
        self.last_bootstrap = Some(instant_now());
    }

    /// Start a find peer query
    pub fn start_find_peer(&mut self, query_id: u64, peer_id: Vec<u8>)
        ensures
            final(self).pending() == old(self).pending().insert(
                query_id,
                DiscoveryQuery::FindPeer(peer_id),
            ),
            final(self).bootstrapped() == old(self).bootstrapped(),
            final(self).bootstrap_list() == old(self).bootstrap_list(),
            final(self).interval() == old(self).interval(),
    {
        self.pending_queries.insert(query_id, DiscoveryQuery::FindPeer(peer_id));
    }

    /// Start a get providers query
    pub fn start_get_providers(&mut self, query_id: u64, key: Vec<u8>)
        ensures
            final(self).pending() == old(self).pending().insert(
                query_id,
                DiscoveryQuery::GetProviders { key },
            ),
            final(self).bootstrapped() == old(self).bootstrapped(),
            final(self).bootstrap_list() == old(self).bootstrap_list(),
            final(self).interval() == old(self).interval(),
    {
        self.pending_queries.insert(query_id, DiscoveryQuery::GetProviders { key });
    }

    /// Handle a query result: the query leaves the pending ones, and its outcome
    /// is answered as `query_answer` says; an unknown query number is an error
    pub fn handle_query_result(&mut self, query_id: u64, result: &QueryOutcome) -> (r: Result<
        DiscoveryResult,
        NetworkError,
    >)
        ensures
            old(self).pending().dom().finite(),
            final(self).pending().dom().finite(),
            final(self).pending() == old(self).pending().remove(query_id),
            old(self).pending().contains_key(query_id) ==> final(self).pending().len() + 1 == old(
                self,
            ).pending().len(),
            !old(self).pending().contains_key(query_id) ==> final(self).pending().len() == old(
                self,
            ).pending().len(),
            final(self).bootstrapped() == old(self).bootstrapped(),
            final(self).bootstrap_list() == old(self).bootstrap_list(),
            final(self).interval() == old(self).interval(),
            !old(self).pending().contains_key(query_id) ==> (r matches Err(
                NetworkError::Discovery(s),
            ) && s@ == unknown_query_text(query_id)),
            old(self).pending().contains_key(query_id) ==> query_answer(
                old(self).pending()[query_id],
                *result,
                r,
            ),
    {
        let query = match self.pending_queries.remove(&query_id) {
            Some(q) => q,
            None => {
                return Err(NetworkError::Discovery(unknown_query_message(query_id)));
            },
        };
        match query {
            DiscoveryQuery::Bootstrap => match result {
                QueryOutcome::Bootstrap(Ok(n)) => Ok(
                    DiscoveryResult::Bootstrap { num_peers: *n as usize },
                ),
                QueryOutcome::Bootstrap(Err(e)) => Err(
                    NetworkError::Discovery(with_prefix("Bootstrap failed: ", e.as_str())),
                ),
                _ => Err(NetworkError::Discovery(String::from_str("Unexpected query result"))),
            },
            DiscoveryQuery::FindPeer(target) => match result {
                QueryOutcome::GetClosestPeers(Ok(peers)) => Ok(
                    DiscoveryResult::FindPeer { target, peers: copy_peer_list(peers) },
                ),
                QueryOutcome::GetClosestPeers(Err(e)) => Err(
                    NetworkError::Discovery(with_prefix("Find peer failed: ", e.as_str())),
                ),
                _ => Err(NetworkError::Discovery(String::from_str("Unexpected query result"))),
            },
            DiscoveryQuery::GetProviders { key } => match result {
                QueryOutcome::GetProviders(Ok(found)) => {
                    let reported = match found {
                        ProvidersOutcome::FoundProviders(p) => p,
                        ProvidersOutcome::FinishedWithNoAdditionalRecord(p) => p,
                    };
                    let providers = sort_unique(reported.as_slice());
                    Ok(DiscoveryResult::GetProviders { key, providers })
                },
                QueryOutcome::GetProviders(Err(e)) => Err(
                    NetworkError::Discovery(with_prefix("Get providers failed: ", e.as_str())),
                ),
                _ => Err(NetworkError::Discovery(String::from_str("Unexpected query result"))),
            },
        }
    }

    /// Whether a bootstrap is due, `elapsed_secs` seconds after the last one
    /// started: always where none has started yet.
    pub fn needs_bootstrap_after(&self, elapsed_secs: u64) -> (due: bool)
        ensures
            due == (!self.bootstrapped() || elapsed_secs >= self.interval()),
    {
        match self.last_bootstrap {
            None => true,
            Some(_) => elapsed_secs >= self.bootstrap_interval,
        }
    }

    /// Check if bootstrap is needed, reading the clock
    pub fn needs_bootstrap(&self) -> (due: bool)
        ensures
            !self.bootstrapped() ==> due,
            self.interval() == 0 ==> due,
    {
        match &self.last_bootstrap {
            None => true,
            Some(last) => {
                let elapsed = secs_since(last);
                self.needs_bootstrap_after(elapsed)
            },
        }
    }

    /// Get bootstrap peers
    pub fn bootstrap_peers(&self) -> (peers: &[(Vec<u8>, Multiaddr)])
        ensures
            peers@ == self.bootstrap_list(),
    {
        self.bootstrap_peers.as_slice()
    }

    /// Get number of pending queries
    pub fn pending_queries_count(&self) -> (n: usize)
        ensures
            n == self.pending().len(),
            self.pending().dom().finite(),
    {
        self.pending_queries.len()
    }
}

} // verus!
