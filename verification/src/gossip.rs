//! Gossip protocol bookkeeping: topic subscriptions, deduplication of received and
//! published messages, and propagation statistics. The network transport itself
//! lives outside the library; this module decides what is accepted, cached and
//! counted.

pub mod topics;

use crate::clock::{instant_now, nanos_since};
use crate::digest::copy_bytes;
use crate::error::NetworkError;
use crate::message::{message_type_name, MessageType};
use crate::message_cache::{fresh_part, oldest_removed, CachedMessage, MessageCache};
use crate::peer_table::PeerTable;
use libp2p::gossipsub::{IdentTopic, MessageId};
use std::time::Instant;
use vstd::prelude::*;

verus! {

/// Information about a subscribed topic.
pub struct TopicInfo {
    /// Topic name
    pub name: String,
    /// Topic hash
    pub hash: String,
    /// Number of messages sent on this topic
    pub messages_sent: u64,
    /// Number of messages received on this topic
    pub messages_received: u64,
    /// Last activity timestamp
    pub last_activity: Instant,
}

/// Gossip protocol statistics
#[derive(Debug, Clone, Copy)]
pub struct GossipStats {
    /// Total messages sent
    pub total_sent: u64,
    /// Total messages received
    pub total_received: u64,
    /// Total messages deduplicated
    pub total_deduplicated: u64,
    /// Total bytes sent
    pub total_bytes_sent: u64,
    /// Total bytes received
    pub total_bytes_received: u64,
}

impl GossipStats {
    /// All counters at zero.
    pub open spec fn zero() -> GossipStats {
        GossipStats {
            total_sent: 0,
            total_received: 0,
            total_deduplicated: 0,
            total_bytes_sent: 0,
            total_bytes_received: 0,
        }
    }
}

impl Default for GossipStats {
    fn default() -> (s: Self)
        ensures
            s == GossipStats::zero(),
    {
        GossipStats {
            total_sent: 0,
            total_received: 0,
            total_deduplicated: 0,
            total_bytes_sent: 0,
            total_bytes_received: 0,
        }
    }
}

/// The largest message accepted for publishing, in bytes (10 MiB).
pub const MAX_GOSSIP_MESSAGE_SIZE: usize = 10485760;

/// Default bound on the number of cached messages.
pub const DEFAULT_MAX_CACHE_SIZE: usize = 10000;

/// Default time to live of a cached message, in milliseconds.
pub const DEFAULT_CACHE_TTL_MS: u64 = 120000;

/// A time to live of `ms` milliseconds in nanoseconds.
pub open spec fn ttl_nanos(ms: u64) -> u128 {
    (ms * 1000000) as u128
}

/// `after` is what evicting makes of a full cache `before` at `now`: nothing is
/// evicted while fewer than `max` messages are cached; else the stale ones go, and
/// if `max` or more fresh ones remain, a tenth of `max` of the oldest go too.
pub open spec fn eviction_of(
    before: Map<Seq<u8>, CachedMessage>,
    after: Map<Seq<u8>, CachedMessage>,
    now: u128,
    ttl: u128,
    max: nat,
) -> bool {
    if before.dom().len() < max {
        after == before
    } else {
        let fresh = fresh_part(before, now, ttl);
        if fresh.dom().len() < max {
            after == fresh
        } else {
            oldest_removed(fresh, after, max / 10)
        }
    }
}

/// `after` is `before` with room made for one more message: where `max` or more
/// are cached, one of the oldest goes.
pub open spec fn room_for_one(
    before: Map<Seq<u8>, CachedMessage>,
    after: Map<Seq<u8>, CachedMessage>,
    max: nat,
) -> bool {
    if before.dom().len() >= max && before.dom().len() > 0 {
        oldest_removed(before, after, 1)
    } else {
        after == before
    }
}

/// The topic a message type is broadcast on, if it is broadcast at all.
pub open spec fn broadcast_topic(t: MessageType) -> Option<Seq<char>> {
    match t {
        MessageType::Transaction => Some(topics::TRANSACTIONS@),
        MessageType::Batch => Some(topics::BATCHES@),
        MessageType::WorkPackage => Some(topics::WORK_PACKAGES@),
        MessageType::MinerShare => Some(topics::MINER_SHARES@),
        _ => None,
    }
}

/// The text of the error for a topic that is not subscribed.
pub open spec fn not_subscribed_text(topic: Seq<char>) -> Seq<char> {
    "Not subscribed to topic: "@ + topic
}

/// The text of the error for a message type that is not broadcast.
pub open spec fn unsupported_type_text(t: MessageType) -> Seq<char> {
    "Unsupported message type for broadcast: "@ + message_type_name(t)
}

/// Calls `IdentTopic::new(topic).hash()` and gives the hash as a string. An
/// `IdentTopic` hashes with `IdentityHash`, whose hash is the topic string itself,
/// and that is what the contract claims.
#[verifier::external_body]
fn ident_topic_hash(topic: &str) -> (h: String)
    ensures
        h@ == topic@,
{
    IdentTopic::new(topic).hash().into_string()
}

/// Calls `MessageId::new(data)` and gives the ID's bytes. `MessageId::new` copies
/// `data` as the ID, and that is what the contract claims.
#[verifier::external_body]
fn message_id_of(data: &[u8]) -> (id: Vec<u8>)
    ensures
        id@ == data@,
{
    MessageId::new(data).0
}

/// The topic a message type is broadcast on, if it is broadcast at all.
pub fn topic_for(t: MessageType) -> (r: Option<&'static str>)
    ensures
        match r {
            Some(s) => broadcast_topic(t) == Some(s@),
            None => broadcast_topic(t) is None,
        },
{
    match t {
        MessageType::Transaction => Some(topics::TRANSACTIONS),
        MessageType::Batch => Some(topics::BATCHES),
        MessageType::WorkPackage => Some(topics::WORK_PACKAGES),
        MessageType::MinerShare => Some(topics::MINER_SHARES),
        _ => None,
    }
}

/// The error text for a topic that is not subscribed.
pub fn not_subscribed_message(topic: &str) -> (s: String)
    ensures
        s@ == not_subscribed_text(topic@),
{
    let mut s = String::from_str("Not subscribed to topic: ");
    s.append(topic);
    s
}

/// The error text for a message type that is not broadcast.
pub fn unsupported_type_message(t: MessageType) -> (s: String)
    ensures
        s@ == unsupported_type_text(t),
{
    let mut s = String::from_str("Unsupported message type for broadcast: ");
    s.append(t.name());
    s
}

/// Evicting from a cache that holds at most `max` messages, `max` being ten or
/// more, leaves room for at least one more message.
pub proof fn law_eviction_leaves_room(
    before: Map<Seq<u8>, CachedMessage>,
    after: Map<Seq<u8>, CachedMessage>,
    now: u128,
    ttl: u128,
    max: nat,
)
    requires
        before.dom().finite(),
        before.dom().len() <= max,
        max >= 10,
        eviction_of(before, after, now, ttl, max),
    ensures
        after.dom().finite(),
        after.dom().len() < max,
{
    if before.dom().len() >= max {
        let fresh = fresh_part(before, now, ttl);
        assert(fresh.dom().subset_of(before.dom()));
        vstd::set_lib::lemma_len_subset(fresh.dom(), before.dom());
        if fresh.dom().len() >= max {
            assert(after.dom().subset_of(fresh.dom()));
            vstd::set_lib::lemma_len_subset(after.dom(), fresh.dom());
        }
    }
}

proof fn lemma_eviction_keeps_entries(
    before: Map<Seq<u8>, CachedMessage>,
    after: Map<Seq<u8>, CachedMessage>,
    now: u128,
    ttl: u128,
    max: nat,
)
    requires
        eviction_of(before, after, now, ttl, max),
    ensures
        after.submap_of(before),
{
    if before.dom().len() >= max {
        let fresh = fresh_part(before, now, ttl);
        if fresh.dom().len() >= max {
            assert forall|k: Seq<u8>| #[trigger] after.contains_key(k) implies before.contains_key(k)
                && after[k] == before[k] by {
                assert(fresh.contains_key(k));
            }
        }
    }
}

/// Making room for one more message in a cache that holds at most `max`
/// messages, `max` being one or more, leaves room for it.
pub proof fn law_room_for_one(
    before: Map<Seq<u8>, CachedMessage>,
    after: Map<Seq<u8>, CachedMessage>,
    max: nat,
)
    requires
        before.dom().finite(),
        before.dom().len() <= max,
        max >= 1,
        room_for_one(before, after, max),
    ensures
        after.dom().finite(),
        after.dom().len() < max,
{
    if before.dom().len() >= max && before.dom().len() > 0 {
        assert(after.dom().subset_of(before.dom()));
        vstd::set_lib::lemma_len_subset(after.dom(), before.dom());
    }
}

/// The texts of a sequence of strings.
pub open spec fn names_of(v: Seq<String>) -> Seq<Seq<char>> {
    v.map_values(|s: String| s@)
}

/// The bytes of a payload, if any.
pub open spec fn payload_view(r: Option<Vec<u8>>) -> Option<Seq<u8>> {
    match r {
        Some(p) => Some(p@),
        None => None,
    }
}

/// Gossip protocol for message propagation
pub struct GossipProtocol {
    topics: PeerTable<TopicInfo>,
    message_cache: MessageCache,
    max_cache_size: usize,
    cache_ttl_ms: u64,
    stats: GossipStats,
    epoch: Instant,
}

/// What handling a received message does, with `now` the cache clock's reading:
/// a message whose ID is cached is counted as a duplicate and dropped; any other
/// is counted, cached (evicting first where the cache is full) and handed back
/// for decoding.
pub open spec fn receive_step(
    pre: GossipProtocol,
    post: GossipProtocol,
    id: Seq<u8>,
    topic: Seq<char>,
    data: Seq<u8>,
    now: u128,
    r: Option<Seq<u8>>,
) -> bool {
    &&& post.max_cache() == pre.max_cache()
    &&& post.ttl_ms() == pre.ttl_ms()
    &&& post.topic_order() == pre.topic_order()
    &&& post.cache().contains_key(id)
    &&& (r is None <==> pre.cache().contains_key(id))
    &&& pre.cache().contains_key(id) ==> {
        &&& post.cache() == pre.cache().insert(
            id,
            CachedMessage { seen_count: (pre.cache()[id].seen_count + 1) as u32, ..pre.cache()[id] },
        )
        &&& post.topics() == pre.topics()
        &&& post.gossip_stats() == GossipStats {
            total_deduplicated: (pre.gossip_stats().total_deduplicated + 1) as u64,
            ..pre.gossip_stats()
        }
    }
    &&& !pre.cache().contains_key(id) ==> {
        &&& r == Some(data)
        &&& post.cache()[id].data@ == data
        &&& post.cache()[id].cached_at == now
        &&& post.cache()[id].seen_count == 1
        &&& eviction_of(
            pre.cache(),
            post.cache().remove(id),
            now,
            ttl_nanos(pre.ttl_ms()),
            pre.max_cache() as nat,
        )
        &&& post.gossip_stats() == GossipStats {
            total_received: (pre.gossip_stats().total_received + 1) as u64,
            total_bytes_received: (pre.gossip_stats().total_bytes_received + data.len()) as u64,
            ..pre.gossip_stats()
        }
        &&& pre.topics().contains_key(topic) ==> post.topics() == pre.topics().insert(
            topic,
            TopicInfo {
                messages_received: (pre.topics()[topic].messages_received + 1) as u64,
                last_activity: post.topics()[topic].last_activity,
                ..pre.topics()[topic]
            },
        )
        &&& !pre.topics().contains_key(topic) ==> post.topics() == pre.topics()
    }
}

/// What broadcasting a message does, with `now` the cache clock's reading: only
/// transactions, batches, work packages and miner shares are broadcast, each on
/// its topic, which must be subscribed; a message already cached is not sent
/// again; any other is cached, making room for it where the cache is full, and
/// counted as sent.
pub open spec fn broadcast_step(
    pre: GossipProtocol,
    post: GossipProtocol,
    t: MessageType,
    data: Seq<u8>,
    now: u128,
    r: Result<(), NetworkError>,
) -> bool {
    &&& post.max_cache() == pre.max_cache()
    &&& post.ttl_ms() == pre.ttl_ms()
    &&& post.topics() == pre.topics()
    &&& post.topic_order() == pre.topic_order()
    &&& match broadcast_topic(t) {
        None => {
            &&& r matches Err(NetworkError::InvalidMessage(s)) && s@ == unsupported_type_text(t)
            &&& post.cache() == pre.cache()
            &&& post.gossip_stats() == pre.gossip_stats()
        },
        Some(topic) => if !pre.topics().contains_key(topic) {
            &&& r matches Err(NetworkError::InvalidMessage(s)) && s@ == not_subscribed_text(topic)
            &&& post.cache() == pre.cache()
            &&& post.gossip_stats() == pre.gossip_stats()
        } else if pre.cache().contains_key(data) {
            &&& r is Ok
            &&& post.cache() == pre.cache()
            &&& post.gossip_stats() == pre.gossip_stats()
        } else {
            &&& r is Ok
            &&& post.cache().contains_key(data)
            &&& post.cache()[data].data@ == data
            &&& post.cache()[data].cached_at == now
            &&& post.cache()[data].seen_count == 1
            &&& room_for_one(pre.cache(), post.cache().remove(data), pre.max_cache() as nat)
            &&& post.gossip_stats() == GossipStats {
                total_sent: (pre.gossip_stats().total_sent + 1) as u64,
                total_bytes_sent: (pre.gossip_stats().total_bytes_sent + data.len()) as u64,
                ..pre.gossip_stats()
            }
        },
    }
}

/// A message handled once is dropped as a duplicate when it comes again: the
/// second handling of the same message ID gives nothing to decode.
pub proof fn law_second_delivery_dropped(
    first: GossipProtocol,
    second: GossipProtocol,
    third: GossipProtocol,
    id: Seq<u8>,
    topics: (Seq<char>, Seq<char>),
    data: (Seq<u8>, Seq<u8>),
    now: (u128, u128),
    r: (Option<Seq<u8>>, Option<Seq<u8>>),
)
    requires
        receive_step(first, second, id, topics.0, data.0, now.0, r.0),
        receive_step(second, third, id, topics.1, data.1, now.1, r.1),
    ensures
        r.1 is None,
        third.gossip_stats().total_received == second.gossip_stats().total_received,
{
}

/// Broadcasting a message that was just broadcast sends nothing more: the cache
/// and the statistics stay as they are.
pub proof fn law_rebroadcast_is_silent(
    first: GossipProtocol,
    second: GossipProtocol,
    third: GossipProtocol,
    t: MessageType,
    data: Seq<u8>,
    now: (u128, u128),
    r: (Result<(), NetworkError>, Result<(), NetworkError>),
)
    requires
        broadcast_step(first, second, t, data, now.0, r.0),
        broadcast_step(second, third, t, data, now.1, r.1),
        r.0 is Ok,
    ensures
        r.1 is Ok,
        third.cache() == second.cache(),
        third.gossip_stats() == second.gossip_stats(),
{
}

impl GossipProtocol {
    /// The subscribed topics and their information, by topic name
    pub closed spec fn topics(&self) -> Map<Seq<char>, TopicInfo> {
        self.topics@
    }

    /// The subscribed topic names, in the order they were subscribed
    pub closed spec fn topic_order(&self) -> Seq<Seq<char>> {
        self.topics.key_list()
    }

    /// The cached messages, by message ID
    pub closed spec fn cache(&self) -> Map<Seq<u8>, CachedMessage> {
        self.message_cache@
    }

    /// The bound on the number of cached messages
    pub closed spec fn max_cache(&self) -> usize {
        self.max_cache_size
    }

    /// The time to live of a cached message, in milliseconds
    pub closed spec fn ttl_ms(&self) -> u64 {
        self.cache_ttl_ms
    }

    /// The propagation statistics
    pub closed spec fn gossip_stats(&self) -> GossipStats {
        self.stats
    }

    /// The topic table and the cache are well formed.
    pub closed spec fn wf(&self) -> bool {
        &&& self.topics.wf()
        &&& self.message_cache.wf()
    }

    /// Create a new GossipProtocol caching up to 10,000 messages for two minutes
    pub fn new() -> (g: Self)
        ensures
            g.wf(),
            g.topics() == Map::<Seq<char>, TopicInfo>::empty(),
            g.topic_order() == Seq::<Seq<char>>::empty(),
            g.cache() == Map::<Seq<u8>, CachedMessage>::empty(),
            g.max_cache() == DEFAULT_MAX_CACHE_SIZE,
            g.ttl_ms() == DEFAULT_CACHE_TTL_MS,
            g.gossip_stats() == GossipStats::zero(),
    {
        Self::with_config(DEFAULT_MAX_CACHE_SIZE, DEFAULT_CACHE_TTL_MS)
    }

    /// Create with custom configuration: the cache bound and the time to live of a
    /// cached message, in milliseconds
    pub fn with_config(max_cache_size: usize, cache_ttl_ms: u64) -> (g: Self)
        ensures
            g.wf(),
            g.topics() == Map::<Seq<char>, TopicInfo>::empty(),
            g.topic_order() == Seq::<Seq<char>>::empty(),
            g.cache() == Map::<Seq<u8>, CachedMessage>::empty(),
            g.max_cache() == max_cache_size,
            g.ttl_ms() == cache_ttl_ms,
            g.gossip_stats() == GossipStats::zero(),
    {
        GossipProtocol {
            topics: PeerTable::new(),
            message_cache: MessageCache::new(),
            max_cache_size,
            cache_ttl_ms,
            stats: GossipStats::default(),
            epoch: instant_now(),
        }
    }

    /// Subscribe to a topic; subscribing again changes nothing
    pub fn subscribe(&mut self, topic: &str) -> (r: Result<(), NetworkError>)
        requires
            old(self).wf(),
        ensures
            final(self).wf(),
            r is Ok,
            final(self).cache() == old(self).cache(),
            final(self).gossip_stats() == old(self).gossip_stats(),
            final(self).max_cache() == old(self).max_cache(),
            final(self).ttl_ms() == old(self).ttl_ms(),
            old(self).topics().contains_key(topic@) ==> final(self).topics() == old(self).topics()
                && final(self).topic_order() == old(self).topic_order(),
            !old(self).topics().contains_key(topic@) ==> {
                let info = final(self).topics()[topic@];
                &&& final(self).topics() == old(self).topics().insert(topic@, info)
                &&& final(self).topic_order() == old(self).topic_order().push(topic@)
                &&& info.name@ == topic@
                &&& info.hash@ == topic@
                &&& info.messages_sent == 0
                &&& info.messages_received == 0
            },
    {
        if self.topics.get(topic).is_some() {
            return Ok(());
        }
        let info = TopicInfo {
            name: String::from_str(topic),
            hash: ident_topic_hash(topic),
            messages_sent: 0,
            messages_received: 0,
            last_activity: instant_now(),
        };
        self.topics.insert(topic, info);
        Ok(())
    }

    /// Unsubscribe from a topic; refused where it is not subscribed
    pub fn unsubscribe(&mut self, topic: &str) -> (r: Result<(), NetworkError>)
        requires
            old(self).wf(),
        ensures
            final(self).wf(),
            final(self).cache() == old(self).cache(),
            final(self).gossip_stats() == old(self).gossip_stats(),
            final(self).max_cache() == old(self).max_cache(),
            final(self).ttl_ms() == old(self).ttl_ms(),
            r is Ok <==> old(self).topics().contains_key(topic@),
            final(self).topics() == old(self).topics().remove(topic@),
            r matches Err(e) ==> (e matches NetworkError::InvalidMessage(s) && s@
                == not_subscribed_text(topic@)),
    {
        match self.topics.remove(topic) {
            Some(_) => Ok(()),
            None => Err(NetworkError::InvalidMessage(not_subscribed_message(topic))),
        }
    }

    /// Prepare an encoded message for publishing on a subscribed topic: refused
    /// where the topic is not subscribed or the message is over 10 MiB; else the
    /// topic and the totals count it as sent and it is handed back
    pub fn prepare_message(&mut self, topic: &str, data: Vec<u8>) -> (r: Result<
        Vec<u8>,
        NetworkError,
    >)
        requires
            old(self).wf(),
            old(self).topics().contains_key(topic@) && data@.len() <= MAX_GOSSIP_MESSAGE_SIZE ==> {
                &&& old(self).topics()[topic@].messages_sent < u64::MAX
                &&& old(self).gossip_stats().total_sent < u64::MAX
                &&& old(self).gossip_stats().total_bytes_sent + data@.len() <= u64::MAX
            },
        ensures
            final(self).wf(),
            final(self).cache() == old(self).cache(),
            final(self).max_cache() == old(self).max_cache(),
            final(self).ttl_ms() == old(self).ttl_ms(),
            final(self).topic_order() == old(self).topic_order(),
            !old(self).topics().contains_key(topic@) ==> (r matches Err(
                NetworkError::InvalidMessage(s),
            ) && s@ == not_subscribed_text(topic@)),
            old(self).topics().contains_key(topic@) && data@.len() > MAX_GOSSIP_MESSAGE_SIZE ==> (r
                matches Err(NetworkError::MessageTooLarge(n, m)) && n == data@.len() && m
                == MAX_GOSSIP_MESSAGE_SIZE),
            r is Err ==> final(self).topics() == old(self).topics() && final(self).gossip_stats()
                == old(self).gossip_stats(),
            r is Ok <==> old(self).topics().contains_key(topic@) && data@.len()
                <= MAX_GOSSIP_MESSAGE_SIZE,
            r matches Ok(d) ==> {
                &&& d@ == data@
                &&& final(self).topics() == old(self).topics().insert(
                    topic@,
                    TopicInfo {
                        messages_sent: (old(self).topics()[topic@].messages_sent + 1) as u64,
                        last_activity: final(self).topics()[topic@].last_activity,
                        ..old(self).topics()[topic@]
                    },
                )
                &&& final(self).gossip_stats() == GossipStats {
                    total_sent: (old(self).gossip_stats().total_sent + 1) as u64,
                    total_bytes_sent: (old(self).gossip_stats().total_bytes_sent
                        + data@.len()) as u64,
                    ..old(self).gossip_stats()
                }
            },
    {
        let updated = match self.topics.get(topic) {
            Some(info) => {
                if data.len() > MAX_GOSSIP_MESSAGE_SIZE {
                    return Err(NetworkError::MessageTooLarge(data.len(), MAX_GOSSIP_MESSAGE_SIZE));
                }
                TopicInfo {
                    name: info.name.clone(),
                    hash: info.hash.clone(),
                    messages_sent: info.messages_sent + 1,
                    messages_received: info.messages_received,
                    last_activity: instant_now(),
                }
            },
            None => {
                return Err(NetworkError::InvalidMessage(not_subscribed_message(topic)));
            },
        };
        self.topics.insert(topic, updated);
        self.stats.total_sent = self.stats.total_sent + 1;
        self.stats.total_bytes_sent = self.stats.total_bytes_sent + data.len() as u64;
        Ok(data)
    }

    /// The reading of the cache clock: nanoseconds since this protocol was made.
    fn clock(&self) -> u128 {
        nanos_since(&self.epoch)
    }

    /// Handle a received message with the cache clock reading `now`: a message
    /// whose ID is cached is a duplicate and gives `None`; any other is counted,
    /// cached and handed back for decoding. Once cached, the same ID is dropped as
    /// a duplicate.
    pub fn handle_received_message_at(
        &mut self,
        message_id: Vec<u8>,
        topic: &str,
        data: Vec<u8>,
        now: u128,
    ) -> (r: Option<Vec<u8>>)
        requires
            old(self).wf(),
            old(self).cache().contains_key(message_id@) ==> {
                &&& old(self).cache()[message_id@].seen_count < u32::MAX
                &&& old(self).gossip_stats().total_deduplicated < u64::MAX
            },
            !old(self).cache().contains_key(message_id@) ==> {
                &&& old(self).gossip_stats().total_received < u64::MAX
                &&& old(self).gossip_stats().total_bytes_received + data@.len() <= u64::MAX
                &&& old(self).topics().contains_key(topic@) ==> old(
                    self,
                ).topics()[topic@].messages_received < u64::MAX
            },
        ensures
            final(self).wf(),
            receive_step(
                *old(self),
                *final(self),
                message_id@,
                topic@,
                data@,
                now,
                payload_view(r),
            ),
            old(self).cache().dom().len() <= old(self).max_cache() && old(self).max_cache() >= 10
                ==> final(self).cache().dom().len() <= final(self).max_cache(),
    {
        let ghost pre = *self;
        if self.message_cache.record_sighting(message_id.as_slice()) {
            self.stats.total_deduplicated = self.stats.total_deduplicated + 1;
            proof {
                assert(self.cache().dom() =~= pre.cache().dom());
            }
            return None;
        }
        let updated = match self.topics.get(topic) {
            Some(info) => Some(
                TopicInfo {
                    name: info.name.clone(),
                    hash: info.hash.clone(),
                    messages_sent: info.messages_sent,
                    messages_received: info.messages_received + 1,
                    last_activity: instant_now(),
                },
            ),
            None => None,
        };
        match updated {
            Some(info) => {
                self.topics.insert(topic, info);
            },
            None => {},
        }
        self.stats.total_received = self.stats.total_received + 1;
        self.stats.total_bytes_received = self.stats.total_bytes_received + data.len() as u64;
        let payload = copy_bytes(data.as_slice());
        self.cache_message_at(message_id, data, now);
        proof {
            if pre.cache().dom().len() <= pre.max_cache() && pre.max_cache() >= 10 {
                pre.message_cache.lemma_keys();
            }
        }
        Some(payload)
    }

    /// Handle a received message, reading the cache clock.
    pub fn handle_received_message(&mut self, message_id: Vec<u8>, topic: &str, data: Vec<u8>) -> (r:
        Option<Vec<u8>>)
        requires
            old(self).wf(),
            old(self).cache().contains_key(message_id@) ==> {
                &&& old(self).cache()[message_id@].seen_count < u32::MAX
                &&& old(self).gossip_stats().total_deduplicated < u64::MAX
            },
            !old(self).cache().contains_key(message_id@) ==> {
                &&& old(self).gossip_stats().total_received < u64::MAX
                &&& old(self).gossip_stats().total_bytes_received + data@.len() <= u64::MAX
                &&& old(self).topics().contains_key(topic@) ==> old(
                    self,
                ).topics()[topic@].messages_received < u64::MAX
            },
        ensures
            final(self).wf(),
            exists|now: u128|
                #[trigger] receive_step(
                    *old(self),
                    *final(self),
                    message_id@,
                    topic@,
                    data@,
                    now,
                    payload_view(r),
                ),
            old(self).cache().dom().len() <= old(self).max_cache() && old(self).max_cache() >= 10
                ==> final(self).cache().dom().len() <= final(self).max_cache(),
    {
        let now = self.clock();
        self.handle_received_message_at(message_id, topic, data, now)
    }

    /// Cache a message whose ID is not cached yet, evicting first where the cache
    /// is full.
    fn cache_message_at(&mut self, message_id: Vec<u8>, data: Vec<u8>, now: u128)
        requires
            old(self).wf(),
            !old(self).cache().contains_key(message_id@),
        ensures
            final(self).wf(),
            final(self).topics() == old(self).topics(),
            final(self).topic_order() == old(self).topic_order(),
            final(self).gossip_stats() == old(self).gossip_stats(),
            final(self).max_cache() == old(self).max_cache(),
            final(self).ttl_ms() == old(self).ttl_ms(),
            final(self).cache().contains_key(message_id@),
            final(self).cache()[message_id@].data@ == data@,
            final(self).cache()[message_id@].cached_at == now,
            final(self).cache()[message_id@].seen_count == 1,
            eviction_of(
                old(self).cache(),
                final(self).cache().remove(message_id@),
                now,
                ttl_nanos(old(self).ttl_ms()),
                old(self).max_cache() as nat,
            ),
            old(self).cache().dom().len() <= old(self).max_cache() && old(self).max_cache() >= 10
                ==> final(self).cache().dom().len() <= final(self).max_cache(),
    {
        let ghost pre = *self;
        if self.message_cache.len() >= self.max_cache_size {
            self.evict_old_messages_at(now);
        }
        let ghost kept = self.message_cache@;
        proof {
            self.message_cache.lemma_keys();
            pre.message_cache.lemma_keys();
            lemma_eviction_keeps_entries(
                pre.cache(),
                kept,
                now,
                ttl_nanos(pre.ttl_ms()),
                pre.max_cache() as nat,
            );
            assert(!kept.contains_key(message_id@));
        }
        let ghost id = message_id@;
        self.message_cache.insert_new(
            CachedMessage { id: message_id, data, cached_at: now, seen_count: 1 },
        );
        proof {
            assert(self.cache().remove(id) =~= kept);
            if pre.cache().dom().len() <= pre.max_cache() && pre.max_cache() >= 10 {
                law_eviction_leaves_room(
                    pre.cache(),
                    kept,
                    now,
                    ttl_nanos(pre.ttl_ms()),
                    pre.max_cache() as nat,
                );
                assert(self.cache().dom() =~= kept.dom().insert(id));
            }
        }
    }

    /// Evict from a full cache: the stale messages, then, if it is still full, a
    /// tenth of its bound of the oldest.
    fn evict_old_messages_at(&mut self, now: u128)
        requires
            old(self).wf(),
            old(self).cache().dom().len() >= old(self).max_cache(),
        ensures
            final(self).wf(),
            final(self).topics() == old(self).topics(),
            final(self).topic_order() == old(self).topic_order(),
            final(self).gossip_stats() == old(self).gossip_stats(),
            final(self).max_cache() == old(self).max_cache(),
            final(self).ttl_ms() == old(self).ttl_ms(),
            eviction_of(
                old(self).cache(),
                final(self).cache(),
                now,
                ttl_nanos(old(self).ttl_ms()),
                old(self).max_cache() as nat,
            ),
    {
        let ttl = (self.cache_ttl_ms as u128) * 1000000;
        self.message_cache.retain_fresh(now, ttl);
        if self.message_cache.len() >= self.max_cache_size {
            let to_remove = self.max_cache_size / 10;
            self.message_cache.evict_oldest(to_remove);
        }
    }

    /// Get topic information
    pub fn get_topic_info(&self, topic: &str) -> (r: Option<&TopicInfo>)
        requires
            self.wf(),
        ensures
            r is Some <==> self.topics().contains_key(topic@),
            r matches Some(info) ==> *info == self.topics()[topic@],
    {
        self.topics.get(topic)
    }

    /// Get all subscribed topics, in the order they were subscribed
    pub fn subscribed_topics(&self) -> (names: Vec<String>)
        requires
            self.wf(),
        ensures
            names_of(names@) == self.topic_order(),
    {
        let mut names: Vec<String> = Vec::new();
        let n = self.topics.len();
        let mut i: usize = 0;
        while i < n
            invariant
                self.wf(),
                n == self.topic_order().len(),
                i <= n,
                names@.len() == i,
                names_of(names@) == self.topic_order().take(i as int),
            decreases n - i,
        {
            let ghost before = names@;
            let k = self.topics.key_at(i);
            let c = k.clone();
            names.push(c);
            proof {
                assert(names@ == before.push(c));
                assert forall|j: int| 0 <= j < i + 1 implies #[trigger] names_of(names@)[j]
                    == self.topic_order().take(i + 1)[j] by {
                    if j < i {
                        assert(names@[j] == before[j]);
                        assert(names_of(before)[j] == self.topic_order().take(i as int)[j]);
                    }
                }
                assert(names_of(names@) =~= self.topic_order().take(i + 1));
            }
            i = i + 1;
        }
        proof {
            assert(self.topic_order().take(n as int) =~= self.topic_order());
        }
        names
    }

    /// Get statistics
    pub fn stats(&self) -> (s: GossipStats)
        ensures
            s == self.gossip_stats(),
    {
        self.stats
    }

    /// Clear message cache
    pub fn clear_cache(&mut self)
        requires
            old(self).wf(),
        ensures
            final(self).wf(),
            final(self).cache() == Map::<Seq<u8>, CachedMessage>::empty(),
            final(self).topics() == old(self).topics(),
            final(self).topic_order() == old(self).topic_order(),
            final(self).gossip_stats() == old(self).gossip_stats(),
            final(self).max_cache() == old(self).max_cache(),
            final(self).ttl_ms() == old(self).ttl_ms(),
    {
        self.message_cache.clear();
    }

    /// How often the message with this ID has been seen, if it is cached
    pub fn seen_count(&self, message_id: &[u8]) -> (n: Option<u32>)
        requires
            self.wf(),
        ensures
            n is Some <==> self.cache().contains_key(message_id@),
            n matches Some(c) ==> c == self.cache()[message_id@].seen_count,
    {
        self.message_cache.seen_count(message_id)
    }

    /// Get cache size
    pub fn cache_size(&self) -> (n: usize)
        requires
            self.wf(),
        ensures
            n == self.cache().dom().len(),
    {
        self.message_cache.len()
    }

    /// Broadcast an encoded message to all peers on its topic, with the cache
    /// clock reading `now`.
    pub fn broadcast_at(&mut self, message_type: MessageType, data: Vec<u8>, now: u128) -> (r:
        Result<(), NetworkError>)
        requires
            old(self).wf(),
            broadcast_topic(message_type) matches Some(t) && old(self).topics().contains_key(t)
                && !old(self).cache().contains_key(data@) ==> {
                &&& old(self).gossip_stats().total_sent < u64::MAX
                &&& old(self).gossip_stats().total_bytes_sent + data@.len() <= u64::MAX
            },
        ensures
            final(self).wf(),
            broadcast_step(*old(self), *final(self), message_type, data@, now, r),
            old(self).cache().dom().len() <= old(self).max_cache() && old(self).max_cache() >= 1
                ==> final(self).cache().dom().len() <= final(self).max_cache(),
    {
        let ghost pre = *self;
        let topic = match topic_for(message_type) {
            Some(t) => t,
            None => {
                return Err(NetworkError::InvalidMessage(unsupported_type_message(message_type)));
            },
        };
        if self.topics.get(topic).is_none() {
            return Err(NetworkError::InvalidMessage(not_subscribed_message(topic)));
        }
        let message_id = message_id_of(data.as_slice());
        if self.message_cache.contains(message_id.as_slice()) {
            return Ok(());
        }
        let cached = self.message_cache.len();
        if cached >= self.max_cache_size && cached > 0 {
            self.message_cache.evict_oldest(1);
        }
        let ghost kept = self.message_cache@;
        let ghost id = message_id@;
        proof {
            self.message_cache.lemma_keys();
            pre.message_cache.lemma_keys();
            assert(!kept.contains_key(id));
        }
        let n = data.len();
        self.message_cache.insert_new(
            CachedMessage { id: message_id, data, cached_at: now, seen_count: 1 },
        );
        self.stats.total_sent = self.stats.total_sent + 1;
        self.stats.total_bytes_sent = self.stats.total_bytes_sent + n as u64;
        proof {
            assert(self.cache().remove(id) =~= kept);
            if pre.cache().dom().len() <= pre.max_cache() && pre.max_cache() >= 1 {
                law_room_for_one(pre.cache(), kept, pre.max_cache() as nat);
                assert(self.cache().dom() =~= kept.dom().insert(id));
            }
        }
        Ok(())
    }

    /// Broadcast an encoded message to all peers on its topic, reading the cache
    /// clock.
    pub fn broadcast(&mut self, message_type: MessageType, data: Vec<u8>) -> (r: Result<
        (),
        NetworkError,
    >)
        requires
            old(self).wf(),
            broadcast_topic(message_type) matches Some(t) && old(self).topics().contains_key(t)
                && !old(self).cache().contains_key(data@) ==> {
                &&& old(self).gossip_stats().total_sent < u64::MAX
                &&& old(self).gossip_stats().total_bytes_sent + data@.len() <= u64::MAX
            },
        ensures
            final(self).wf(),
            exists|now: u128| #[trigger] broadcast_step(*old(self), *final(self), message_type, data@, now, r),
            old(self).cache().dom().len() <= old(self).max_cache() && old(self).max_cache() >= 1
                ==> final(self).cache().dom().len() <= final(self).max_cache(),
    {
        let now = self.clock();
        self.broadcast_at(message_type, data, now)
    }
}

impl Default for GossipProtocol {
    fn default() -> (g: Self)
        ensures
            g.wf(),
            g.topics() == Map::<Seq<char>, TopicInfo>::empty(),
            g.cache() == Map::<Seq<u8>, CachedMessage>::empty(),
            g.max_cache() == DEFAULT_MAX_CACHE_SIZE,
            g.ttl_ms() == DEFAULT_CACHE_TTL_MS,
            g.gossip_stats() == GossipStats::zero(),
    {
        Self::new()
    }
}

} // verus!
