//! Validator synchronisation: the peers a validator keeps, their connection
//! states and counters, the messages validators exchange, and the decisions of
//! broadcasting and retrying. The sockets themselves are driven by the caller,
//! which reports each outcome back here.
//!
//! Peers are identified by the text of their socket address; durations are whole
//! milliseconds.

use crate::clock::{instant_now, nanos_since, system_time_now, unix_secs};
use crate::digest::{bytes_equal, copy_bytes, sha256, sha256_digest};
use crate::error::{copy_opt_string, opt_view};
use crate::peer_table::PeerTable;
use crate::text::{decimal, u64_to_decimal};
use crate::wire::{unframe, unframed, FrameError};
use std::time::Instant;
use vstd::prelude::*;

verus! {

/// Errors of validator synchronisation.
#[derive(Debug)]
pub enum SyncError {
    /// Invalid data, with a description
    InvalidData(String),
}

/// The description an error carries.
pub open spec fn sync_error_text(e: SyncError) -> Seq<char> {
    match e {
        SyncError::InvalidData(s) => s@,
    }
}

/// Network message types with versioning for compatibility
#[derive(Debug)]
pub enum NetworkMessage {
    /// Validator set change event
    ValidatorSetChange {
        /// Event data
        data: Vec<u8>,
        /// Message version for compatibility
        version: u32,
    },
    /// Snapshot certificate
    SnapshotCertificate {
        /// Certificate data
        data: Vec<u8>,
        /// Snapshot height
        height: u64,
        /// Message version for compatibility
        version: u32,
    },
    /// Batch of transactions
    TransactionBatch {
        /// Batch ID
        batch_id: Vec<u8>,
        /// Batch data
        data: Vec<u8>,
        /// Batch sequence number
        sequence: u64,
        /// Message version for compatibility
        version: u32,
    },
    /// Ping for health check
    Ping {
        /// Timestamp
        timestamp: u64,
        /// Nonce for tracking
        nonce: u64,
    },
    /// Pong response
    Pong {
        /// Timestamp
        timestamp: u64,
        /// Nonce matching ping
        nonce: u64,
    },
    /// Handshake for peer identification
    Handshake {
        /// Peer validator ID
        validator_id: Vec<u8>,
        /// Peer version
        version: u32,
        /// Supported message types
        capabilities: Vec<u8>,
    },
    /// Acknowledgment of message receipt
    Ack {
        /// Message hash being acknowledged
        message_hash: Vec<u8>,
        /// Sequence number
        sequence: u64,
    },
}

/// The protocol version this node speaks.
pub const PROTOCOL_VERSION: u32 = 1;

/// The capabilities this node announces: the message types it handles.
pub open spec fn own_capabilities() -> Seq<u8> {
    seq![1u8, 2u8, 3u8, 4u8, 5u8, 6u8, 7u8]
}

/// The type identifier of each kind of message.
pub open spec fn message_type_id(message: NetworkMessage) -> u8 {
    match message {
        NetworkMessage::ValidatorSetChange { .. } => 1,
        NetworkMessage::SnapshotCertificate { .. } => 2,
        NetworkMessage::TransactionBatch { .. } => 3,
        NetworkMessage::Ping { .. } => 4,
        NetworkMessage::Pong { .. } => 5,
        NetworkMessage::Handshake { .. } => 6,
        NetworkMessage::Ack { .. } => 7,
    }
}

/// Get message type identifier from NetworkMessage
pub fn message_type_from_network_message(message: &NetworkMessage) -> (t: u8)
    ensures
        t == message_type_id(*message),
{
    match message {
        NetworkMessage::ValidatorSetChange { .. } => 1,
        NetworkMessage::SnapshotCertificate { .. } => 2,
        NetworkMessage::TransactionBatch { .. } => 3,
        NetworkMessage::Ping { .. } => 4,
        NetworkMessage::Pong { .. } => 5,
        NetworkMessage::Handshake { .. } => 6,
        NetworkMessage::Ack { .. } => 7,
    }
}

impl NetworkMessage {
    /// The message announcing a validator set change.
    pub fn validator_set_change(data: Vec<u8>) -> (m: Self)
        ensures
            m == (NetworkMessage::ValidatorSetChange { data, version: PROTOCOL_VERSION }),
    {
        NetworkMessage::ValidatorSetChange { data, version: PROTOCOL_VERSION }
    }

    /// The message carrying a snapshot certificate.
    pub fn snapshot_certificate(data: Vec<u8>, height: u64) -> (m: Self)
        ensures
            m == (NetworkMessage::SnapshotCertificate { data, height, version: PROTOCOL_VERSION }),
    {
        NetworkMessage::SnapshotCertificate { data, height, version: PROTOCOL_VERSION }
    }

    /// The message carrying a transaction batch.
    pub fn transaction_batch(batch_id: Vec<u8>, data: Vec<u8>, sequence: u64) -> (m: Self)
        ensures
            m == (NetworkMessage::TransactionBatch {
                batch_id,
                data,
                sequence,
                version: PROTOCOL_VERSION,
            }),
    {
        NetworkMessage::TransactionBatch { batch_id, data, sequence, version: PROTOCOL_VERSION }
    }

    /// The handshake this node sends, identifying it by `validator_id`.
    pub fn handshake(validator_id: &Vec<u8>) -> (m: Self)
        ensures
            m matches NetworkMessage::Handshake { validator_id: id, version, capabilities } && id@
                == validator_id@ && version == PROTOCOL_VERSION && capabilities@
                == own_capabilities(),
    {
        let capabilities = vec![1u8, 2u8, 3u8, 4u8, 5u8, 6u8, 7u8];
        proof {
            assert(capabilities@ =~= own_capabilities());
        }
        NetworkMessage::Handshake {
            validator_id: copy_bytes(validator_id.as_slice()),
            version: PROTOCOL_VERSION,
            capabilities,
        }
    }
}

/// Extracts the serialized message from a length-prefixed frame.
pub fn decode_message_frame(data: &[u8]) -> (r: Result<Vec<u8>, SyncError>)
    ensures
        match (r, unframed(data@)) {
            (Ok(p), Ok(q)) => p@ == q,
            (Err(e), Err(FrameError::TooShort)) => sync_error_text(e) == "Message too short"@,
            (Err(e), Err(FrameError::Incomplete)) => sync_error_text(e) == "Incomplete message"@,
            _ => false,
        },
{
    match unframe(data) {
        Ok(p) => Ok(p),
        Err(FrameError::TooShort) => Err(SyncError::InvalidData(String::from_str("Message too short"))),
        Err(FrameError::Incomplete) => Err(
            SyncError::InvalidData(String::from_str("Incomplete message")),
        ),
    }
}

/// Extracts the serialized envelope from a length-prefixed frame.
pub fn decode_envelope_frame(data: &[u8]) -> (r: Result<Vec<u8>, SyncError>)
    ensures
        match (r, unframed(data@)) {
            (Ok(p), Ok(q)) => p@ == q,
            (Err(e), Err(FrameError::TooShort)) => sync_error_text(e) == "Envelope too short"@,
            (Err(e), Err(FrameError::Incomplete)) => sync_error_text(e) == "Incomplete envelope"@,
            _ => false,
        },
{
    match unframe(data) {
        Ok(p) => Ok(p),
        Err(FrameError::TooShort) => Err(SyncError::InvalidData(String::from_str("Envelope too short"))),
        Err(FrameError::Incomplete) => Err(
            SyncError::InvalidData(String::from_str("Incomplete envelope")),
        ),
    }
}

/// The integrity hash of a message, over its serialized form.
pub fn message_hash(serialized: &[u8]) -> (h: Vec<u8>)
    ensures
        h@ == sha256(serialized@),
{
    sha256_digest(serialized)
}

/// Largest message a validator sends, in bytes.
pub const MAX_MESSAGE_SIZE: usize = 10485760;

/// Refuses a serialized message larger than the limit.
pub fn check_message_size(len: usize) -> (r: Result<(), SyncError>)
    ensures
        len <= MAX_MESSAGE_SIZE ==> r is Ok,
        len > MAX_MESSAGE_SIZE ==> (r matches Err(e) && sync_error_text(e) == "Message too large: "@
            + decimal(len as nat) + " bytes (max 10MB)"@),
{
    if len > MAX_MESSAGE_SIZE {
        let mut s = String::from_str("Message too large: ");
        let n = u64_to_decimal(len as u64);
        s.append(n.as_str());
        s.append(" bytes (max 10MB)");
        return Err(SyncError::InvalidData(s));
    }
    Ok(())
}

/// Peer connection state
#[derive(Debug, Clone, Copy, PartialEq, Eq, Structural)]
pub enum ConnectionState {
    /// Disconnected
    Disconnected,
    /// Connecting
    Connecting,
    /// Connected and handshaked
    Connected,
    /// Connection failed
    Failed,
    /// Peer is stale
    Stale,
}

/// Failed attempts after which a peer counts as failed
pub const MAX_FAILED_ATTEMPTS: u32 = 5;

/// How long a peer may stay silent before it is stale, in nanoseconds
pub const STALE_AFTER_NANOS: u128 = 300000000000;

/// Peer information with detailed metrics
#[derive(Debug)]
pub struct PeerInfo {
    /// Peer address
    pub address: String,
    /// Peer validator ID
    pub validator_id: Option<Vec<u8>>,
    /// Last seen timestamp
    pub last_seen: Instant,
    /// Connection state
    pub state: ConnectionState,
    /// Messages sent
    pub messages_sent: u64,
    /// Messages received
    pub messages_received: u64,
    /// Latency in milliseconds (exponential moving average)
    pub latency_ms: u64,
    /// Failed connection attempts
    pub failed_attempts: u32,
    /// Last error message
    pub last_error: Option<String>,
    /// Peer version
    pub version: u32,
    /// Peer capabilities
    pub capabilities: Vec<u8>,
    /// Total bytes sent
    pub bytes_sent: u64,
    /// Total bytes received
    pub bytes_received: u64,
}

/// A copy of an optional byte string.
pub fn copy_opt_bytes(v: &Option<Vec<u8>>) -> (r: Option<Vec<u8>>)
    ensures
        match (r, *v) {
            (Some(a), Some(b)) => a@ == b@,
            (None, None) => true,
            _ => false,
        },
{
    match v {
        Some(b) => Some(copy_bytes(b.as_slice())),
        None => None,
    }
}

/// The latency estimate after a sample: the sample itself at first, then an
/// exponential moving average weighting the sample by 30%.
pub open spec fn next_latency(current: u64, sample: u64) -> int {
    if current == 0 {
        sample as int
    } else {
        (current * 70 + sample * 30) / 100
    }
}

/// Whether a peer silent for `elapsed_nanos` is stale: silent for more than five
/// minutes.
pub open spec fn stale_after(elapsed_nanos: u128) -> bool {
    elapsed_nanos > STALE_AFTER_NANOS
}

/// Whether a peer silent for `elapsed_nanos` is healthy: connected and not stale.
pub open spec fn healthy_after(p: PeerInfo, elapsed_nanos: u128) -> bool {
    p.state == ConnectionState::Connected && !stale_after(elapsed_nanos)
}

/// For each silence, in table order, whether the peer is still fresh.
pub open spec fn fresh_marks(elapsed: Seq<u128>) -> Seq<bool> {
    elapsed.map_values(|e: u128| !stale_after(e))
}

/// Whether the peer with address `k` is stale, the silences `elapsed` being given
/// in the order of the addresses `keys`.
pub open spec fn stale_at(keys: Seq<Seq<char>>, elapsed: Seq<u128>, k: Seq<char>) -> bool {
    stale_after(elapsed[keys.index_of(k)])
}

/// The peers that are not stale, the silences `elapsed` being given in the order
/// of the addresses `keys`.
pub open spec fn fresh_peers(
    peers: Map<Seq<char>, PeerInfo>,
    keys: Seq<Seq<char>>,
    elapsed: Seq<u128>,
) -> Map<Seq<char>, PeerInfo> {
    peers.restrict(peers.dom().filter(|k: Seq<char>| !stale_at(keys, elapsed, k)))
}

impl PeerInfo {
    /// Two records agree on everything but the moment last seen, byte strings
    /// compared by content.
    pub open spec fn same_but_last_seen(&self, other: &PeerInfo) -> bool {
        &&& self.address@ == other.address@
        &&& match (self.validator_id, other.validator_id) {
            (Some(a), Some(b)) => a@ == b@,
            (None, None) => true,
            _ => false,
        }
        &&& self.state == other.state
        &&& self.messages_sent == other.messages_sent
        &&& self.messages_received == other.messages_received
        &&& self.latency_ms == other.latency_ms
        &&& self.failed_attempts == other.failed_attempts
        &&& opt_view(self.last_error) == opt_view(other.last_error)
        &&& self.version == other.version
        &&& self.capabilities@ == other.capabilities@
        &&& self.bytes_sent == other.bytes_sent
        &&& self.bytes_received == other.bytes_received
    }

    /// A record as it stands when a peer is first added.
    pub open spec fn is_fresh(&self, address: Seq<char>) -> bool {
        &&& self.address@ == address
        &&& self.validator_id is None
        &&& self.state == ConnectionState::Disconnected
        &&& self.messages_sent == 0
        &&& self.messages_received == 0
        &&& self.latency_ms == 0
        &&& self.failed_attempts == 0
        &&& self.last_error is None
        &&& self.version == PROTOCOL_VERSION
        &&& self.capabilities@.len() == 0
        &&& self.bytes_sent == 0
        &&& self.bytes_received == 0
    }

    /// Create new peer info
    pub fn new(address: String) -> (p: Self)
        ensures
            p.is_fresh(address@),
    {
        PeerInfo {
            address,
            validator_id: None,
            last_seen: instant_now(),
            state: ConnectionState::Disconnected,
            messages_sent: 0,
            messages_received: 0,
            latency_ms: 0,
            failed_attempts: 0,
            last_error: None,
            version: PROTOCOL_VERSION,
            capabilities: Vec::new(),
            bytes_sent: 0,
            bytes_received: 0,
        }
    }

    /// A copy of the record.
    pub fn copy(&self) -> (p: Self)
        ensures
            p.same_but_last_seen(self),
            p.last_seen == self.last_seen,
    {
        PeerInfo {
            address: self.address.clone(),
            validator_id: copy_opt_bytes(&self.validator_id),
            last_seen: self.last_seen,
            state: self.state,
            messages_sent: self.messages_sent,
            messages_received: self.messages_received,
            latency_ms: self.latency_ms,
            failed_attempts: self.failed_attempts,
            last_error: copy_opt_string(&self.last_error),
            version: self.version,
            capabilities: copy_bytes(self.capabilities.as_slice()),
            bytes_sent: self.bytes_sent,
            bytes_received: self.bytes_received,
        }
    }

    /// Whether the peer is stale `elapsed_nanos` after it was last seen: silent
    /// for more than five minutes.
    pub fn is_stale_after(&self, elapsed_nanos: u128) -> (r: bool)
        ensures
            r == (elapsed_nanos > STALE_AFTER_NANOS),
    {
        elapsed_nanos > STALE_AFTER_NANOS
    }

    /// Check if peer is stale (no activity for 5 minutes), reading the clock.
    pub fn is_stale(&self) -> (r: bool) {
        let elapsed = nanos_since(&self.last_seen);
        self.is_stale_after(elapsed)
    }

    /// Whether the peer is healthy `elapsed_nanos` after it was last seen:
    /// connected and not stale.
    pub fn is_healthy_after(&self, elapsed_nanos: u128) -> (r: bool)
        ensures
            r == healthy_after(*self, elapsed_nanos),
    {
        self.state == ConnectionState::Connected && !self.is_stale_after(elapsed_nanos)
    }

    /// Check if peer is healthy: connected and not stale, reading the clock.
    pub fn is_healthy(&self) -> (r: bool)
        ensures
            r ==> self.state == ConnectionState::Connected,
    {
        if self.state != ConnectionState::Connected {
            return false;
        }
        let elapsed = nanos_since(&self.last_seen);
        self.is_healthy_after(elapsed)
    }

    /// Update last seen time
    pub fn update_last_seen(&mut self)
        ensures
            *final(self) == (PeerInfo { last_seen: final(self).last_seen, ..*old(self) }),
    {
        self.last_seen = instant_now();
    }

    /// Record message sent with exponential moving average latency
    pub fn record_sent(&mut self, bytes: u64, latency_ms: u64)
        requires
            old(self).messages_sent < u64::MAX,
            old(self).bytes_sent + bytes <= u64::MAX,
            old(self).latency_ms == 0 || old(self).latency_ms * 70 + latency_ms * 30 <= u64::MAX,
        ensures
            *final(self) == (PeerInfo {
                messages_sent: (old(self).messages_sent + 1) as u64,
                bytes_sent: (old(self).bytes_sent + bytes) as u64,
                latency_ms: next_latency(old(self).latency_ms, latency_ms) as u64,
                last_seen: final(self).last_seen,
                ..*old(self)
            }),
    {
        self.messages_sent = self.messages_sent + 1;
        self.bytes_sent = self.bytes_sent + bytes;
        self.update_last_seen();
        if self.latency_ms == 0 {
            self.latency_ms = latency_ms;
        } else {
            self.latency_ms = (self.latency_ms * 70 + latency_ms * 30) / 100;
        }
    }

    /// Record message received; a message from the peer clears its failures.
    pub fn record_received(&mut self, bytes: u64)
        requires
            old(self).messages_received < u64::MAX,
            old(self).bytes_received + bytes <= u64::MAX,
        ensures
            *final(self) == (PeerInfo {
                messages_received: (old(self).messages_received + 1) as u64,
                bytes_received: (old(self).bytes_received + bytes) as u64,
                failed_attempts: 0,
                last_error: None,
                last_seen: final(self).last_seen,
                ..*old(self)
            }),
    {
        self.messages_received = self.messages_received + 1;
        self.bytes_received = self.bytes_received + bytes;
        self.update_last_seen();
        self.failed_attempts = 0;
        self.last_error = None;
    }

    /// Record failed attempt; after more than five the peer counts as failed.
    pub fn record_failure(&mut self, error: String)
        requires
            old(self).failed_attempts < u32::MAX,
        ensures
            *final(self) == (PeerInfo {
                failed_attempts: (old(self).failed_attempts + 1) as u32,
                last_error: Some(error),
                state: if old(self).failed_attempts + 1 > MAX_FAILED_ATTEMPTS {
                    ConnectionState::Failed
                } else {
                    old(self).state
                },
                ..*old(self)
            }),
    {
        self.failed_attempts = self.failed_attempts + 1;
        self.last_error = Some(error);
        if self.failed_attempts > MAX_FAILED_ATTEMPTS {
            self.state = ConnectionState::Failed;
        }
    }

    /// Reset failure counter
    pub fn reset_failures(&mut self)
        ensures
            *final(self) == (PeerInfo { failed_attempts: 0, last_error: None, ..*old(self) }),
    {
        self.failed_attempts = 0;
        self.last_error = None;
    }
}

/// Message envelope for network transmission with metadata
#[derive(Debug)]
pub struct MessageEnvelope {
    /// Message type identifier
    pub message_type: u8,
    /// Serialized message data
    pub data: Vec<u8>,
    /// Seconds since the Unix epoch when the envelope was created
    pub timestamp: u64,
    /// Sender address
    pub sender_addr: String,
    /// Message sequence number for ordering
    pub sequence: u64,
    /// Message hash for integrity verification
    pub hash: Vec<u8>,
    /// Compression flag
    pub compressed: bool,
}

impl MessageEnvelope {
    /// Whether the recorded hash is the digest of the data.
    pub open spec fn sealed(&self) -> bool {
        sha256(self.data@) == self.hash@
    }

    /// Create new message envelope, stamped with the current time and sealed with
    /// the digest of its data.
    pub fn new(message_type: u8, data: Vec<u8>, sender_addr: String, sequence: u64) -> (r: Result<
        Self,
        SyncError,
    >)
        ensures
            r matches Ok(e) && {
                &&& e.message_type == message_type
                &&& e.data == data
                &&& e.sender_addr == sender_addr
                &&& e.sequence == sequence
                &&& e.hash@ == sha256(data@)
                &&& e.sealed()
                &&& !e.compressed
            },
    {
        let now = system_time_now();
        let timestamp = unix_secs(&now);
        let hash = sha256_digest(data.as_slice());
        Ok(MessageEnvelope {
            message_type,
            data,
            timestamp,
            sender_addr,
            sequence,
            hash,
            compressed: false,
        })
    }

    /// Verify envelope integrity: the data's digest is the recorded hash.
    pub fn verify_integrity(&self) -> (r: bool)
        ensures
            r == self.sealed(),
    {
        let digest = sha256_digest(self.data.as_slice());
        bytes_equal(digest.as_slice(), self.hash.as_slice())
    }
}

/// Broadcast result with detailed metrics
#[derive(Debug, Clone, Copy)]
pub struct BroadcastResult {
    /// Total peers
    pub total_peers: usize,
    /// Successful broadcasts
    pub successful: usize,
    /// Failed broadcasts
    pub failed: usize,
    /// Average latency
    pub avg_latency_ms: u64,
    /// Min latency
    pub min_latency_ms: u64,
    /// Max latency
    pub max_latency_ms: u64,
    /// Total bytes sent
    pub total_bytes_sent: u64,
    /// Broadcast duration
    pub duration_ms: u64,
}

/// Broadcast statistics with detailed metrics
#[derive(Debug, Clone, Copy)]
pub struct BroadcastStats {
    /// Total broadcasts
    pub total_broadcasts: u64,
    /// Successful broadcasts
    pub successful_broadcasts: u64,
    /// Failed broadcasts
    pub failed_broadcasts: u64,
    /// Total messages sent
    pub total_messages_sent: u64,
    /// Total messages received
    pub total_messages_received: u64,
    /// Average broadcast latency
    pub avg_broadcast_latency_ms: u64,
    /// Total bytes sent
    pub total_bytes_sent: u64,
    /// Total bytes received
    pub total_bytes_received: u64,
    /// Connection failures
    pub connection_failures: u64,
    /// Message retries
    pub message_retries: u64,
    /// Peer count
    pub peer_count: u64,
    /// Connected peer count
    pub connected_peer_count: u64,
}

impl BroadcastStats {
    /// All counters at zero.
    pub open spec fn zero() -> BroadcastStats {
        BroadcastStats {
            total_broadcasts: 0,
            successful_broadcasts: 0,
            failed_broadcasts: 0,
            total_messages_sent: 0,
            total_messages_received: 0,
            avg_broadcast_latency_ms: 0,
            total_bytes_sent: 0,
            total_bytes_received: 0,
            connection_failures: 0,
            message_retries: 0,
            peer_count: 0,
            connected_peer_count: 0,
        }
    }
}

impl Default for BroadcastStats {
    fn default() -> (s: Self)
        ensures
            s == BroadcastStats::zero(),
    {
        BroadcastStats {
            total_broadcasts: 0,
            successful_broadcasts: 0,
            failed_broadcasts: 0,
            total_messages_sent: 0,
            total_messages_received: 0,
            avg_broadcast_latency_ms: 0,
            total_bytes_sent: 0,
            total_bytes_received: 0,
            connection_failures: 0,
            message_retries: 0,
            peer_count: 0,
            connected_peer_count: 0,
        }
    }
}

/// How the sending of a broadcast message to one peer ended.
#[derive(Debug)]
pub enum SendOutcome {
    /// Sent, with the latency and the bytes sent
    Delivered {
        /// Milliseconds from the start of the send to its completion
        latency_ms: u64,
        /// Bytes written
        bytes_sent: u64,
    },
    /// Not sent, with the reason
    Failed(String),
}

/// Number of sends that were delivered.
pub open spec fn delivered_count(s: Seq<SendOutcome>) -> nat
    decreases s.len(),
{
    if s.len() == 0 {
        0
    } else {
        delivered_count(s.drop_last()) + if s.last() is Delivered {
            1nat
        } else {
            0nat
        }
    }
}

/// Sum of the latencies of the delivered sends.
pub open spec fn latency_sum(s: Seq<SendOutcome>) -> nat
    decreases s.len(),
{
    if s.len() == 0 {
        0
    } else {
        latency_sum(s.drop_last()) + match s.last() {
            SendOutcome::Delivered { latency_ms, .. } => latency_ms as nat,
            _ => 0nat,
        }
    }
}

/// Sum of the bytes of the delivered sends.
pub open spec fn bytes_sum(s: Seq<SendOutcome>) -> nat
    decreases s.len(),
{
    if s.len() == 0 {
        0
    } else {
        bytes_sum(s.drop_last()) + match s.last() {
            SendOutcome::Delivered { bytes_sent, .. } => bytes_sent as nat,
            _ => 0nat,
        }
    }
}

/// The least latency of the delivered sends, `u64::MAX` where there are none.
pub open spec fn latency_min(s: Seq<SendOutcome>) -> u64
    decreases s.len(),
{
    if s.len() == 0 {
        u64::MAX
    } else {
        let m = latency_min(s.drop_last());
        match s.last() {
            SendOutcome::Delivered { latency_ms, .. } => if latency_ms < m {
                latency_ms
            } else {
                m
            },
            _ => m,
        }
    }
}

/// The greatest latency of the delivered sends, 0 where there are none.
pub open spec fn latency_max(s: Seq<SendOutcome>) -> u64
    decreases s.len(),
{
    if s.len() == 0 {
        0
    } else {
        let m = latency_max(s.drop_last());
        match s.last() {
            SendOutcome::Delivered { latency_ms, .. } => if latency_ms > m {
                latency_ms
            } else {
                m
            },
            _ => m,
        }
    }
}

/// The result of a broadcast to `total_peers` peers whose sends ended as
/// `outcomes`, taking `duration_ms`.
pub open spec fn broadcast_summary(outcomes: Seq<SendOutcome>, total_peers: usize, duration_ms: u64) -> BroadcastResult {
    let ok = delivered_count(outcomes);
    BroadcastResult {
        total_peers,
        successful: ok as usize,
        failed: (outcomes.len() - ok) as usize,
        avg_latency_ms: if ok > 0 {
            (latency_sum(outcomes) / ok) as u64
        } else {
            0
        },
        min_latency_ms: if latency_min(outcomes) == u64::MAX {
            0
        } else {
            latency_min(outcomes)
        },
        max_latency_ms: latency_max(outcomes),
        total_bytes_sent: bytes_sum(outcomes) as u64,
        duration_ms,
    }
}

proof fn lemma_delivered_le_len(s: Seq<SendOutcome>)
    ensures
        delivered_count(s) <= s.len(),
    decreases s.len(),
{
    if s.len() > 0 {
        lemma_delivered_le_len(s.drop_last());
    }
}

proof fn lemma_sums_monotone(s: Seq<SendOutcome>, i: int)
    requires
        0 <= i <= s.len(),
    ensures
        latency_sum(s.take(i)) <= latency_sum(s),
        bytes_sum(s.take(i)) <= bytes_sum(s),
    decreases s.len() - i,
{
    if i < s.len() {
        lemma_sums_monotone(s, i + 1);
        assert(s.take(i + 1).drop_last() =~= s.take(i));
    } else {
        assert(s.take(i) =~= s);
    }
}

/// Summarises the sends of a broadcast.
pub fn summarize_broadcast(outcomes: &Vec<SendOutcome>, total_peers: usize, duration_ms: u64) -> (r:
    BroadcastResult)
    requires
        latency_sum(outcomes@) <= u64::MAX,
        bytes_sum(outcomes@) <= u64::MAX,
    ensures
        r == broadcast_summary(outcomes@, total_peers, duration_ms),
{
    let mut successful: usize = 0;
    let mut failed: usize = 0;
    let mut total_latency: u64 = 0;
    let mut min_latency: u64 = u64::MAX;
    let mut max_latency: u64 = 0;
    let mut total_bytes_sent: u64 = 0;
    let mut i: usize = 0;
    while i < outcomes.len()
        invariant
            i <= outcomes@.len(),
            latency_sum(outcomes@) <= u64::MAX,
            bytes_sum(outcomes@) <= u64::MAX,
            successful == delivered_count(outcomes@.take(i as int)),
            failed == i - delivered_count(outcomes@.take(i as int)),
            total_latency == latency_sum(outcomes@.take(i as int)),
            total_bytes_sent == bytes_sum(outcomes@.take(i as int)),
            min_latency == latency_min(outcomes@.take(i as int)),
            max_latency == latency_max(outcomes@.take(i as int)),
        decreases outcomes@.len() - i,
    {
        proof {
            assert(outcomes@.take(i + 1).drop_last() =~= outcomes@.take(i as int));
            lemma_sums_monotone(outcomes@, i + 1);
            lemma_delivered_le_len(outcomes@.take(i as int));
        }
        match &outcomes[i] {
            SendOutcome::Delivered { latency_ms, bytes_sent } => {
                successful = successful + 1;
                total_latency = total_latency + *latency_ms;
                if *latency_ms < min_latency {
                    min_latency = *latency_ms;
                }
                if *latency_ms > max_latency {
                    max_latency = *latency_ms;
                }
                total_bytes_sent = total_bytes_sent + *bytes_sent;
            },
            SendOutcome::Failed(_) => {
                failed = failed + 1;
            },
        }
        i = i + 1;
    }
    proof {
        assert(outcomes@.take(outcomes@.len() as int) =~= outcomes@);
    }
    let avg_latency = if successful > 0 {
        total_latency / successful as u64
    } else {
        0
    };
    BroadcastResult {
        total_peers,
        successful,
        failed,
        avg_latency_ms: avg_latency,
        min_latency_ms: if min_latency == u64::MAX {
            0
        } else {
            min_latency
        },
        max_latency_ms: max_latency,
        total_bytes_sent,
        duration_ms,
    }
}

/// A broadcast's delivered and failed sends add up to the sends made, and the
/// average, least and greatest latencies are in order.
pub proof fn law_broadcast_accounting(outcomes: Seq<SendOutcome>, total_peers: usize, duration_ms: u64)
    requires
        outcomes.len() <= usize::MAX,
        latency_sum(outcomes) <= u64::MAX,
    ensures
        broadcast_summary(outcomes, total_peers, duration_ms).successful + broadcast_summary(
            outcomes,
            total_peers,
            duration_ms,
        ).failed == outcomes.len(),
        delivered_count(outcomes) > 0 ==> broadcast_summary(
            outcomes,
            total_peers,
            duration_ms,
        ).min_latency_ms <= broadcast_summary(outcomes, total_peers, duration_ms).avg_latency_ms
            <= broadcast_summary(outcomes, total_peers, duration_ms).max_latency_ms,
{
    lemma_delivered_le_len(outcomes);
    if delivered_count(outcomes) > 0 {
        lemma_latency_bounds(outcomes);
        let n = delivered_count(outcomes);
        let total = latency_sum(outcomes);
        let lo = latency_min(outcomes) as nat;
        let hi = latency_max(outcomes) as nat;
        assert(lo <= total / n) by (nonlinear_arith)
            requires
                lo * n <= total,
                n > 0,
        ;
        assert(total / n <= hi) by (nonlinear_arith)
            requires
                total <= hi * n,
                n > 0,
        ;
    }
}

proof fn lemma_latency_bounds(s: Seq<SendOutcome>)
    ensures
        latency_min(s) as nat * delivered_count(s) <= latency_sum(s),
        latency_sum(s) <= latency_max(s) as nat * delivered_count(s),
        delivered_count(s) > 0 ==> latency_min(s) <= latency_max(s),
    decreases s.len(),
{
    if s.len() > 0 {
        let p = s.drop_last();
        lemma_latency_bounds(p);
        let n = delivered_count(p);
        let lo = latency_min(p) as nat;
        let hi = latency_max(p) as nat;
        let sum = latency_sum(p);
        match s.last() {
            SendOutcome::Delivered { latency_ms, .. } => {
                let x = latency_ms as nat;
                assert(delivered_count(s) == n + 1);
                assert(latency_sum(s) == sum + x);
                let lo2 = latency_min(s) as nat;
                let hi2 = latency_max(s) as nat;
                assert(lo2 <= lo && lo2 <= x);
                assert(hi2 >= hi && hi2 >= x);
                assert(lo2 * (n + 1) <= sum + x) by (nonlinear_arith)
                    requires
                        lo * n <= sum,
                        lo2 <= lo,
                        lo2 <= x,
                ;
                assert(sum + x <= hi2 * (n + 1)) by (nonlinear_arith)
                    requires
                        sum <= hi * n,
                        hi2 >= hi,
                        hi2 >= x,
                ;
            },
            _ => {
                assert(delivered_count(s) == n);
                assert(latency_sum(s) == sum);
                assert(latency_min(s) == latency_min(p));
                assert(latency_max(s) == latency_max(p));
            },
        }
    } else {
        assert(delivered_count(s) == 0);
        assert(latency_sum(s) == 0);
        assert(latency_min(s) as nat * 0 == 0) by (nonlinear_arith);
        assert(latency_max(s) as nat * 0 == 0) by (nonlinear_arith);
    }
}

/// The result of a broadcast with no connected peer to send to.
pub fn empty_broadcast_result(duration_ms: u64) -> (r: BroadcastResult)
    ensures
        r == (BroadcastResult {
            total_peers: 0,
            successful: 0,
            failed: 0,
            avg_latency_ms: 0,
            min_latency_ms: 0,
            max_latency_ms: 0,
            total_bytes_sent: 0,
            duration_ms,
        }),
{
    BroadcastResult {
        total_peers: 0,
        successful: 0,
        failed: 0,
        avg_latency_ms: 0,
        min_latency_ms: 0,
        max_latency_ms: 0,
        total_bytes_sent: 0,
        duration_ms,
    }
}

/// Longest wait between two sends of one message, in milliseconds
pub const MAX_RETRY_BACKOFF_MS: u64 = 5000;

/// The retry schedule of one message to one peer: up to `max_retries` attempts,
/// the wait between two of them doubling up to five seconds.
pub struct SendRetry {
    attempt: usize,
    max_retries: usize,
    backoff_ms: u64,
}

impl SendRetry {
    /// Attempts made so far
    pub closed spec fn attempts(&self) -> usize {
        self.attempt
    }

    /// Attempts allowed
    pub closed spec fn limit(&self) -> usize {
        self.max_retries
    }

    /// Wait before the next attempt, in milliseconds
    pub closed spec fn wait(&self) -> u64 {
        self.backoff_ms
    }

    /// A schedule with no attempt made yet.
    pub fn new(max_retries: usize, retry_backoff_ms: u64) -> (s: Self)
        ensures
            s.attempts() == 0,
            s.limit() == max_retries,
            s.wait() == retry_backoff_ms,
    {
        SendRetry { attempt: 0, max_retries, backoff_ms: retry_backoff_ms }
    }

    /// Whether another attempt may be made.
    pub fn may_attempt(&self) -> (r: bool)
        ensures
            r == (self.attempts() < self.limit()),
    {
        self.attempt < self.max_retries
    }

    /// Records a failed attempt. Gives the wait before the next one, or `None`
    /// where that was the last attempt allowed; the wait after this one doubles,
    /// up to five seconds.
    pub fn after_failure(&mut self) -> (wait: Option<u64>)
        requires
            old(self).attempts() < old(self).limit(),
        ensures
            final(self).attempts() == old(self).attempts() + 1,
            final(self).limit() == old(self).limit(),
            old(self).attempts() + 1 < old(self).limit() ==> {
                &&& wait == Some(old(self).wait())
                &&& final(self).wait() == if old(self).wait() >= MAX_RETRY_BACKOFF_MS / 2 {
                    MAX_RETRY_BACKOFF_MS
                } else {
                    (2 * old(self).wait()) as u64
                }
            },
            old(self).attempts() + 1 >= old(self).limit() ==> wait is None && final(self).wait()
                == old(self).wait(),
    {
        let last = self.attempt + 1 >= self.max_retries;
        self.attempt = self.attempt + 1;
        if last {
            None
        } else {
            let w = self.backoff_ms;
            self.backoff_ms = if w >= MAX_RETRY_BACKOFF_MS / 2 {
                MAX_RETRY_BACKOFF_MS
            } else {
                w * 2
            };
            Some(w)
        }
    }
}

/// How an attempt to connect to a peer ended.
#[derive(Debug)]
pub enum ConnectOutcome {
    /// Connected, but the handshake could not be written
    HandshakeWriteFailed(String),
    /// The peer answered with its handshake
    HandshakeReply {
        /// The peer's validator ID
        validator_id: Vec<u8>,
        /// The peer's version
        version: u32,
        /// The peer's capabilities
        capabilities: Vec<u8>,
    },
    /// The peer answered with something that is not a handshake
    UnexpectedReply,
    /// The peer did not answer in time, or closed the connection
    NoReply,
    /// The connection could not be established
    ConnectFailed(String),
    /// The connection attempt timed out
    ConnectTimeout,
}

/// A peer record after a failure: counted, described, and the peer marked failed.
pub open spec fn failed_with(pre: PeerInfo, post: PeerInfo, error: Seq<char>) -> bool {
    &&& post == (PeerInfo {
        failed_attempts: (pre.failed_attempts + 1) as u32,
        last_error: post.last_error,
        state: ConnectionState::Failed,
        ..pre
    })
    &&& opt_view(post.last_error) == Some(error)
}

/// The number of records in a state.
pub open spec fn count_in_state(peers: Seq<PeerInfo>, state: ConnectionState) -> nat
    decreases peers.len(),
{
    if peers.len() == 0 {
        0
    } else {
        count_in_state(peers.drop_last(), state) + if peers.last().state == state {
            1nat
        } else {
            0nat
        }
    }
}

/// The connected records of `peers` whose mark in `keep` is set, in order.
pub open spec fn kept_connected(peers: Seq<PeerInfo>, keep: Seq<bool>) -> Seq<PeerInfo>
    decreases peers.len(),
{
    if peers.len() == 0 || keep.len() == 0 {
        Seq::empty()
    } else {
        let rest = kept_connected(peers.drop_last(), keep.drop_last());
        if keep.last() && peers.last().state == ConnectionState::Connected {
            rest.push(peers.last())
        } else {
            rest
        }
    }
}

/// Two lists hold copies of the same records, in the same order.
pub open spec fn same_records(a: Seq<PeerInfo>, b: Seq<PeerInfo>) -> bool {
    &&& a.len() == b.len()
    &&& forall|i: int|
        0 <= i < a.len() ==> #[trigger] a[i].same_but_last_seen(&b[i]) && a[i].last_seen
            == b[i].last_seen
}

/// Peers worth another connection attempt: failed, with fewer than ten failures.
pub open spec fn reconnectable(p: PeerInfo) -> bool {
    p.state == ConnectionState::Failed && p.failed_attempts < 10
}

/// The keys whose records satisfy `pred`, in table order.
pub open spec fn keys_where(
    keys: Seq<Seq<char>>,
    vals: Seq<PeerInfo>,
    pred: spec_fn(PeerInfo) -> bool,
) -> Seq<Seq<char>>
    decreases keys.len(),
{
    if keys.len() == 0 || vals.len() == 0 {
        Seq::empty()
    } else {
        let rest = keys_where(keys.drop_last(), vals.drop_last(), pred);
        if pred(vals.last()) {
            rest.push(keys.last())
        } else {
            rest
        }
    }
}

/// The addresses of the peers worth another connection attempt, in table order.
pub open spec fn reconnect_list(keys: Seq<Seq<char>>, vals: Seq<PeerInfo>) -> Seq<Seq<char>> {
    keys_where(keys, vals, |p: PeerInfo| reconnectable(p))
}

/// The reconnect candidates are exactly the failed peers with fewer than ten
/// failures: every listed address belongs to such a peer, and every such peer's
/// address is listed; a connected, connecting or disconnected peer never is.
pub proof fn law_reconnect_only_failed(keys: Seq<Seq<char>>, vals: Seq<PeerInfo>)
    requires
        keys.len() == vals.len(),
    ensures
        forall|k: Seq<char>|
            #[trigger] reconnect_list(keys, vals).contains(k) ==> exists|i: int|
                0 <= i < keys.len() && keys[i] == k && vals[i].state == ConnectionState::Failed
                    && vals[i].failed_attempts < 10,
        forall|i: int|
            0 <= i < keys.len() && vals[i].state == ConnectionState::Failed && vals[i].failed_attempts
                < 10 ==> reconnect_list(keys, vals).contains(#[trigger] keys[i]),
    decreases keys.len(),
{
    let f = |p: PeerInfo| reconnectable(p);
    if keys.len() > 0 {
        let kd = keys.drop_last();
        let vd = vals.drop_last();
        law_reconnect_only_failed(kd, vd);
        let rest = reconnect_list(kd, vd);
        let all = reconnect_list(keys, vals);
        assert forall|k: Seq<char>| all.contains(k) implies exists|i: int|
            0 <= i < keys.len() && keys[i] == k && vals[i].state == ConnectionState::Failed
                && vals[i].failed_attempts < 10 by {
            if rest.contains(k) {
                let i = choose|i: int|
                    0 <= i < kd.len() && kd[i] == k && vd[i].state == ConnectionState::Failed
                        && vd[i].failed_attempts < 10;
                assert(keys[i] == k && vals[i] == vd[i]);
            } else {
                let j = all.index_of(k);
                assert(all[j] == k);
                assert(all =~= rest.push(keys.last()));
                assert(k == keys.last());
                let i = keys.len() - 1;
                assert(keys[i] == k);
            }
        }
        assert forall|i: int|
            0 <= i < keys.len() && vals[i].state == ConnectionState::Failed && vals[i].failed_attempts
                < 10 implies all.contains(#[trigger] keys[i]) by {
            if i < keys.len() - 1 {
                assert(kd[i] == keys[i] && vd[i] == vals[i]);
                assert(rest.contains(kd[i]));
                let j = rest.index_of(kd[i]);
                if f(vals.last()) {
                    assert(all == rest.push(keys.last()));
                    assert(all[j] == keys[i]);
                } else {
                    assert(all == rest);
                }
            } else {
                assert(f(vals.last()));
                assert(all == rest.push(keys.last()));
                assert(all[rest.len() as int] == keys[i]);
            }
        }
    }
}

/// The latency estimate is an exponential moving average with weight 0.3 on the
/// new sample: the first sample becomes the estimate; after that the new estimate
/// is `(70 * estimate + 30 * sample) / 100`, rounded down, which lies between the
/// estimate and the sample and moves toward a sample that differs from the
/// estimate by four or more.
pub proof fn law_latency_average(current: u64, sample: u64)
    ensures
        current == 0 ==> next_latency(current, sample) == sample,
        current != 0 ==> 100 * next_latency(current, sample) <= 70 * current + 30 * sample
            < 100 * next_latency(current, sample) + 100,
        current != 0 && current <= sample ==> current <= next_latency(current, sample) <= sample,
        current != 0 && sample <= current ==> sample <= next_latency(current, sample) <= current,
        current != 0 && sample >= current + 4 ==> next_latency(current, sample) > current,
        current != 0 && sample + 4 <= current ==> next_latency(current, sample) < current,
{
}

/// Connected peers.
pub open spec fn is_connected(p: PeerInfo) -> bool {
    p.state == ConnectionState::Connected
}

/// Network events, peers named by their socket address
#[derive(Debug)]
pub enum NetworkEvent {
    /// Peer connected
    PeerConnected(String),
    /// Peer disconnected
    PeerDisconnected(String),
    /// Message received
    MessageReceived(String, NetworkMessage),
    /// Broadcast completed
    BroadcastCompleted(u64),
}

/// Validator network manager: the peers of a validator and the statistics of its
/// traffic.
pub struct ValidatorNetworkManager {
    peers: PeerTable<PeerInfo>,
    local_addr: String,
    max_retries: usize,
    retry_backoff_ms: u64,
    message_timeout_ms: u64,
    stats: BroadcastStats,
    message_sequence: u64,
    validator_id: Vec<u8>,
}

/// The description of an error about a peer's address.
pub open spec fn peer_error_text(address: Seq<char>, what: Seq<char>) -> Seq<char> {
    "Peer "@ + address + what
}

fn peer_error(address: &str, what: &str) -> (e: SyncError)
    ensures
        sync_error_text(e) == peer_error_text(address@, what@),
{
    let mut s = String::from_str("Peer ");
    s.append(address);
    s.append(what);
    SyncError::InvalidData(s)
}

impl ValidatorNetworkManager {
    /// The peers, by address
    pub closed spec fn peers(&self) -> Map<Seq<char>, PeerInfo> {
        self.peers@
    }

    /// The addresses, in table order
    pub closed spec fn peer_addresses(&self) -> Seq<Seq<char>> {
        self.peers.key_list()
    }

    /// The peer records, in table order
    pub closed spec fn peer_list(&self) -> Seq<PeerInfo> {
        self.peers.values()
    }

    /// The traffic statistics
    pub closed spec fn stats(&self) -> BroadcastStats {
        self.stats
    }

    /// The local address
    pub closed spec fn local_address(&self) -> Seq<char> {
        self.local_addr@
    }

    /// This node's validator ID
    pub closed spec fn own_id(&self) -> Seq<u8> {
        self.validator_id@
    }

    /// Attempts allowed for each send
    pub closed spec fn retries(&self) -> usize {
        self.max_retries
    }

    /// The first wait between two attempts of a send, in milliseconds
    pub closed spec fn retry_backoff(&self) -> u64 {
        self.retry_backoff_ms
    }

    /// How long to wait for a peer, in milliseconds
    pub closed spec fn timeout(&self) -> u64 {
        self.message_timeout_ms
    }

    /// The next envelope sequence number
    pub closed spec fn sequence(&self) -> u64 {
        self.message_sequence
    }

    /// The peer table is well formed and each record sits under its own address.
    pub closed spec fn wf(&self) -> bool {
        &&& self.peers.wf()
        &&& forall|k: Seq<char>| #[trigger]
            self.peers@.contains_key(k) ==> self.peers@[k].address@ == k
    }

    /// What the order of the peer records means.
    pub proof fn lemma_peer_order(&self)
        requires
            self.wf(),
        ensures
            self.peer_addresses().len() == self.peer_list().len(),
            self.peer_addresses().no_duplicates(),
            forall|i: int|
                0 <= i < self.peer_addresses().len() ==> #[trigger] self.peers().contains_key(
                    self.peer_addresses()[i],
                ) && self.peers()[self.peer_addresses()[i]] == self.peer_list()[i],
            forall|k: Seq<char>| #[trigger]
                self.peers().contains_key(k) <==> self.peer_addresses().contains(k),
            self.peers().dom().finite(),
            self.peers().dom().len() == self.peer_list().len(),
    {
        self.peers.lemma_entries();
        self.peers.lemma_dom();
    }

    /// Create new validator network manager: three attempts per send, 100 ms
    /// between the first two, five seconds to wait for a peer.
    pub fn new(local_addr: String, validator_id: Vec<u8>) -> (m: Self)
        ensures
            m.wf(),
            m.peers() == Map::<Seq<char>, PeerInfo>::empty(),
            m.local_address() == local_addr@,
            m.own_id() == validator_id@,
            m.retries() == 3,
            m.retry_backoff() == 100,
            m.timeout() == 5000,
            m.stats() == BroadcastStats::zero(),
            m.sequence() == 0,
    {
        Self::with_config(local_addr, validator_id, 3, 100, 5000)
    }

    /// Create with custom configuration
    pub fn with_config(
        local_addr: String,
        validator_id: Vec<u8>,
        max_retries: usize,
        retry_backoff_ms: u64,
        message_timeout_ms: u64,
    ) -> (m: Self)
        ensures
            m.wf(),
            m.peers() == Map::<Seq<char>, PeerInfo>::empty(),
            m.local_address() == local_addr@,
            m.own_id() == validator_id@,
            m.retries() == max_retries,
            m.retry_backoff() == retry_backoff_ms,
            m.timeout() == message_timeout_ms,
            m.stats() == BroadcastStats::zero(),
            m.sequence() == 0,
    {
        ValidatorNetworkManager {
            peers: PeerTable::new(),
            local_addr,
            max_retries,
            retry_backoff_ms,
            message_timeout_ms,
            stats: BroadcastStats::default(),
            message_sequence: 0,
            validator_id,
        }
    }

    /// The local address
    pub fn local_addr(&self) -> (a: &String)
        ensures
            a@ == self.local_address(),
    {
        &self.local_addr
    }

    /// This node's validator ID
    pub fn validator_id(&self) -> (id: &Vec<u8>)
        ensures
            id@ == self.own_id(),
    {
        &self.validator_id
    }

    /// Attempts allowed for each send
    pub fn max_retries(&self) -> (n: usize)
        ensures
            n == self.retries(),
    {
        self.max_retries
    }

    /// The first wait between two attempts of a send, in milliseconds
    pub fn retry_backoff_ms(&self) -> (n: u64)
        ensures
            n == self.retry_backoff(),
    {
        self.retry_backoff_ms
    }

    /// How long to wait for a peer, in milliseconds
    pub fn message_timeout_ms(&self) -> (n: u64)
        ensures
            n == self.timeout(),
    {
        self.message_timeout_ms
    }

    /// Add peer to network
    pub fn add_peer(&mut self, address: &str) -> (r: Result<(), SyncError>)
        requires
            old(self).wf(),
            old(self).stats().peer_count < u64::MAX,
        ensures
            final(self).wf(),
            old(self).peers().contains_key(address@) ==> {
                &&& r matches Err(e) && sync_error_text(e) == peer_error_text(
                    address@,
                    " already exists"@,
                )
                &&& final(self).peers() == old(self).peers()
                &&& final(self).stats() == old(self).stats()
            },
            !old(self).peers().contains_key(address@) ==> {
                &&& r is Ok
                &&& final(self).peers() == old(self).peers().insert(
                    address@,
                    final(self).peers()[address@],
                )
                &&& final(self).peers()[address@].is_fresh(address@)
                &&& final(self).stats() == (BroadcastStats {
                    peer_count: (old(self).stats().peer_count + 1) as u64,
                    ..old(self).stats()
                })
            },
            final(self).sequence() == old(self).sequence(),
    {
        if self.peers.get(address).is_some() {
            return Err(peer_error(address, " already exists"));
        }
        let peer = PeerInfo::new(String::from_str(address));
        self.peers.insert(address, peer);
        self.stats.peer_count = self.stats.peer_count + 1;
        proof {
            assert forall|k: Seq<char>| #[trigger] self.peers@.contains_key(k) implies self.peers@[
                k
            ].address@ == k by {
                if k != address@ {
                    assert(old(self).peers@.contains_key(k));
                }
            }
        }
        Ok(())
    }

    /// Remove peer from network
    pub fn remove_peer(&mut self, address: &str) -> (r: Result<(), SyncError>)
        requires
            old(self).wf(),
        ensures
            final(self).wf(),
            old(self).peers().contains_key(address@) ==> {
                &&& r is Ok
                &&& final(self).peers() == old(self).peers().remove(address@)
                &&& final(self).stats() == (BroadcastStats {
                    peer_count: old(self).stats().peer_count.saturating_sub(1),
                    ..old(self).stats()
                })
            },
            !old(self).peers().contains_key(address@) ==> {
                &&& r matches Err(e) && sync_error_text(e) == peer_error_text(
                    address@,
                    " not found"@,
                )
                &&& final(self).peers() == old(self).peers()
                &&& final(self).stats() == old(self).stats()
            },
            final(self).sequence() == old(self).sequence(),
    {
        match self.peers.remove(address) {
            Some(_) => {
                self.stats.peer_count = self.stats.peer_count.saturating_sub(1);
                Ok(())
            },
            None => Err(peer_error(address, " not found")),
        }
    }

    /// Takes out the record of a peer.
    fn take_peer(&mut self, address: &str) -> (p: Option<PeerInfo>)
        requires
            old(self).wf(),
        ensures
            final(self).wf(),
            final(self).peers() == old(self).peers().remove(address@),
            p is Some <==> old(self).peers().contains_key(address@),
            p matches Some(q) ==> q == old(self).peers()[address@],
            final(self).stats() == old(self).stats(),
            final(self).sequence() == old(self).sequence(),
            final(self).retries() == old(self).retries(),
            final(self).retry_backoff() == old(self).retry_backoff(),
            final(self).timeout() == old(self).timeout(),
            final(self).local_address() == old(self).local_address(),
            final(self).own_id() == old(self).own_id(),
    {
        self.peers.remove(address)
    }

    /// Puts back the record of a peer.
    fn put_peer(&mut self, address: &str, peer: PeerInfo)
        requires
            old(self).wf(),
            peer.address@ == address@,
        ensures
            final(self).wf(),
            final(self).peers() == old(self).peers().insert(address@, peer),
            final(self).stats() == old(self).stats(),
            final(self).sequence() == old(self).sequence(),
            final(self).retries() == old(self).retries(),
            final(self).retry_backoff() == old(self).retry_backoff(),
            final(self).timeout() == old(self).timeout(),
            final(self).local_address() == old(self).local_address(),
            final(self).own_id() == old(self).own_id(),
    {
        self.peers.insert(address, peer);
        proof {
            assert forall|k: Seq<char>| #[trigger] self.peers@.contains_key(k) implies self.peers@[
                k
            ].address@ == k by {
                if k != address@ {
                    assert(old(self).peers@.contains_key(k));
                }
            }
        }
    }

    /// A copy of the record of a peer that has one.
    fn peer_copy(&self, address: &str) -> (p: Option<PeerInfo>)
        requires
            self.wf(),
        ensures
            p is Some <==> self.peers().contains_key(address@),
            p matches Some(q) ==> q.same_but_last_seen(&self.peers()[address@]) && q.last_seen
                == self.peers()[address@].last_seen,
    {
        match self.peers.get(address) {
            Some(p) => Some(p.copy()),
            None => None,
        }
    }

    /// Marks a peer as connecting; the first step of connecting to it.
    pub fn begin_connect(&mut self, address: &str) -> (r: Result<(), SyncError>)
        requires
            old(self).wf(),
        ensures
            final(self).wf(),
            final(self).stats() == old(self).stats(),
            final(self).sequence() == old(self).sequence(),
            old(self).peers().contains_key(address@) ==> {
                &&& r is Ok
                &&& final(self).peers() == old(self).peers().insert(
                    address@,
                    PeerInfo { state: ConnectionState::Connecting, ..old(self).peers()[address@] },
                )
            },
            !old(self).peers().contains_key(address@) ==> {
                &&& r matches Err(e) && sync_error_text(e) == peer_error_text(
                    address@,
                    " not found"@,
                )
                &&& final(self).peers() == old(self).peers()
            },
    {
        match self.take_peer(address) {
            Some(p) => {
                let mut p = p;
                p.state = ConnectionState::Connecting;
                self.put_peer(address, p);
                proof {
                    assert(self.peers() =~= old(self).peers().insert(address@, p));
                }
                Ok(())
            },
            None => {
                proof {
                    assert(self.peers() =~= old(self).peers());
                }
                Err(peer_error(address, " not found"))
            },
        }
    }

    /// Records how an attempt to connect to a peer ended, and gives the attempt's
    /// result.
    pub fn finish_connect(&mut self, address: &str, outcome: ConnectOutcome) -> (r: Result<
        (),
        SyncError,
    >)
        requires
            old(self).wf(),
            old(self).peers().contains_key(address@) ==> old(self).peers()[address@].failed_attempts
                < u32::MAX,
            old(self).stats().connected_peer_count < u64::MAX,
            old(self).stats().connection_failures < u64::MAX,
        ensures
            final(self).wf(),
            final(self).sequence() == old(self).sequence(),
            ({
                let had = old(self).peers().contains_key(address@);
                let pre = old(self).peers()[address@];
                let post = final(self).peers()[address@];
                &&& !had ==> final(self).peers() == old(self).peers()
                &&& had ==> final(self).peers() == old(self).peers().insert(address@, post)
                &&& match outcome {
                    ConnectOutcome::HandshakeWriteFailed(e) => {
                        &&& had ==> failed_with(pre, post, "Handshake write failed: "@ + e@)
                        &&& final(self).stats() == old(self).stats()
                        &&& r matches Err(x) && sync_error_text(x) == "Failed to send handshake: "@
                            + e@
                    },
                    ConnectOutcome::HandshakeReply { validator_id, version, capabilities } => {
                        &&& had ==> post == (PeerInfo {
                            validator_id: Some(validator_id),
                            version,
                            capabilities,
                            state: ConnectionState::Connected,
                            failed_attempts: 0,
                            last_error: None,
                            ..pre
                        })
                        &&& final(self).stats() == if had {
                            BroadcastStats {
                                connected_peer_count: (old(self).stats().connected_peer_count
                                    + 1) as u64,
                                ..old(self).stats()
                            }
                        } else {
                            old(self).stats()
                        }
                        &&& r is Ok
                    },
                    ConnectOutcome::UnexpectedReply => {
                        &&& final(self).peers() == old(self).peers()
                        &&& final(self).stats() == old(self).stats()
                        &&& r is Ok
                    },
                    ConnectOutcome::NoReply => {
                        &&& had ==> failed_with(pre, post, "Handshake response timeout"@)
                        &&& final(self).stats() == old(self).stats()
                        &&& r is Ok
                    },
                    ConnectOutcome::ConnectFailed(e) => {
                        &&& had ==> failed_with(pre, post, "Connection failed: "@ + e@)
                        &&& final(self).stats() == if had {
                            BroadcastStats {
                                connection_failures: (old(self).stats().connection_failures
                                    + 1) as u64,
                                ..old(self).stats()
                            }
                        } else {
                            old(self).stats()
                        }
                        &&& r matches Err(x) && sync_error_text(x) == "Failed to connect to peer: "@
                            + e@
                    },
                    ConnectOutcome::ConnectTimeout => {
                        &&& had ==> failed_with(pre, post, "Connection timeout"@)
                        &&& final(self).stats() == if had {
                            BroadcastStats {
                                connection_failures: (old(self).stats().connection_failures
                                    + 1) as u64,
                                ..old(self).stats()
                            }
                        } else {
                            old(self).stats()
                        }
                        &&& r matches Err(x) && sync_error_text(x) == "Connection timeout"@
                    },
                }
            }),
    {
        match outcome {
            ConnectOutcome::HandshakeWriteFailed(e) => {
                let mut text = String::from_str("Handshake write failed: ");
                text.append(e.as_str());
                self.fail_peer(address, text);
                let mut msg = String::from_str("Failed to send handshake: ");
                msg.append(e.as_str());
                Err(SyncError::InvalidData(msg))
            },
            ConnectOutcome::HandshakeReply { validator_id, version, capabilities } => {
                match self.take_peer(address) {
                    Some(p) => {
                        let mut p = p;
                        p.validator_id = Some(validator_id);
                        p.version = version;
                        p.capabilities = capabilities;
                        p.state = ConnectionState::Connected;
                        p.reset_failures();
                        self.put_peer(address, p);
                        self.stats.connected_peer_count = self.stats.connected_peer_count + 1;
                        proof {
                            assert(self.peers() =~= old(self).peers().insert(address@, p));
                        }
                    },
                    None => {
                        proof {
                            assert(self.peers() =~= old(self).peers());
                        }
                    },
                }
                Ok(())
            },
            ConnectOutcome::UnexpectedReply => Ok(()),
            ConnectOutcome::NoReply => {
                self.fail_peer(address, String::from_str("Handshake response timeout"));
                Ok(())
            },
            ConnectOutcome::ConnectFailed(e) => {
                let mut text = String::from_str("Connection failed: ");
                text.append(e.as_str());
                if self.fail_peer(address, text) {
                    self.stats.connection_failures = self.stats.connection_failures + 1;
                }
                let mut msg = String::from_str("Failed to connect to peer: ");
                msg.append(e.as_str());
                Err(SyncError::InvalidData(msg))
            },
            ConnectOutcome::ConnectTimeout => {
                if self.fail_peer(address, String::from_str("Connection timeout")) {
                    self.stats.connection_failures = self.stats.connection_failures + 1;
                }
                Err(SyncError::InvalidData(String::from_str("Connection timeout")))
            },
        }
    }

    /// Marks a peer failed and records the failure; tells whether it has a record.
    fn fail_peer(&mut self, address: &str, error: String) -> (had: bool)
        requires
            old(self).wf(),
            old(self).peers().contains_key(address@) ==> old(self).peers()[address@].failed_attempts
                < u32::MAX,
        ensures
            final(self).wf(),
            had == old(self).peers().contains_key(address@),
            final(self).stats() == old(self).stats(),
            final(self).sequence() == old(self).sequence(),
            had ==> final(self).peers() == old(self).peers().insert(
                address@,
                final(self).peers()[address@],
            ),
            had ==> failed_with(old(self).peers()[address@], final(self).peers()[address@], error@),
            !had ==> final(self).peers() == old(self).peers(),
    {
        match self.take_peer(address) {
            Some(p) => {
                let mut p = p;
                p.state = ConnectionState::Failed;
                p.record_failure(error);
                self.put_peer(address, p);
                proof {
                    assert(self.peers() =~= old(self).peers().insert(address@, p));
                }
                true
            },
            None => {
                proof {
                    assert(self.peers() =~= old(self).peers());
                }
                false
            },
        }
    }

    /// Disconnect from peer
    pub fn disconnect_peer(&mut self, address: &str) -> (r: Result<(), SyncError>)
        requires
            old(self).wf(),
        ensures
            final(self).wf(),
            final(self).sequence() == old(self).sequence(),
            old(self).peers().contains_key(address@) ==> {
                &&& r is Ok
                &&& final(self).peers() == old(self).peers().insert(
                    address@,
                    PeerInfo { state: ConnectionState::Disconnected, ..old(self).peers()[address@] },
                )
                &&& final(self).stats() == if old(self).peers()[address@].state
                    == ConnectionState::Connected {
                    BroadcastStats {
                        connected_peer_count: old(self).stats().connected_peer_count.saturating_sub(
                            1,
                        ),
                        ..old(self).stats()
                    }
                } else {
                    old(self).stats()
                }
            },
            !old(self).peers().contains_key(address@) ==> {
                &&& r matches Err(e) && sync_error_text(e) == peer_error_text(
                    address@,
                    " not found"@,
                )
                &&& final(self).peers() == old(self).peers()
                &&& final(self).stats() == old(self).stats()
            },
    {
        match self.take_peer(address) {
            Some(p) => {
                let mut p = p;
                if p.state == ConnectionState::Connected {
                    self.stats.connected_peer_count = self.stats.connected_peer_count.saturating_sub(1);
                }
                p.state = ConnectionState::Disconnected;
                self.put_peer(address, p);
                proof {
                    assert(self.peers() =~= old(self).peers().insert(address@, p));
                }
                Ok(())
            },
            None => {
                proof {
                    assert(self.peers() =~= old(self).peers());
                }
                Err(peer_error(address, " not found"))
            },
        }
    }

    /// Records the handshake a connecting peer sent.
    pub fn apply_inbound_handshake(
        &mut self,
        address: &str,
        validator_id: Vec<u8>,
        version: u32,
        capabilities: Vec<u8>,
    )
        requires
            old(self).wf(),
        ensures
            final(self).wf(),
            final(self).stats() == old(self).stats(),
            final(self).sequence() == old(self).sequence(),
            old(self).peers().contains_key(address@) ==> final(self).peers() == old(self).peers().insert(
                address@,
                PeerInfo {
                    validator_id: Some(validator_id),
                    version,
                    capabilities,
                    state: ConnectionState::Connected,
                    failed_attempts: 0,
                    last_error: None,
                    ..old(self).peers()[address@]
                },
            ),
            !old(self).peers().contains_key(address@) ==> final(self).peers() == old(self).peers(),
    {
        match self.take_peer(address) {
            Some(p) => {
                let mut p = p;
                p.validator_id = Some(validator_id);
                p.version = version;
                p.capabilities = capabilities;
                p.state = ConnectionState::Connected;
                p.reset_failures();
                self.put_peer(address, p);
                proof {
                    assert(self.peers() =~= old(self).peers().insert(address@, p));
                }
            },
            None => {
                proof {
                    assert(self.peers() =~= old(self).peers());
                }
            },
        }
    }

    /// Records a message of `bytes` bytes received from a peer.
    pub fn record_inbound_message(&mut self, address: &str, bytes: u64)
        requires
            old(self).wf(),
            old(self).stats().total_messages_received < u64::MAX,
            old(self).stats().total_bytes_received + bytes <= u64::MAX,
            old(self).peers().contains_key(address@) ==> {
                &&& old(self).peers()[address@].messages_received < u64::MAX
                &&& old(self).peers()[address@].bytes_received + bytes <= u64::MAX
            },
        ensures
            final(self).wf(),
            final(self).sequence() == old(self).sequence(),
            final(self).stats() == (BroadcastStats {
                total_messages_received: (old(self).stats().total_messages_received + 1) as u64,
                total_bytes_received: (old(self).stats().total_bytes_received + bytes) as u64,
                ..old(self).stats()
            }),
            old(self).peers().contains_key(address@) ==> final(self).peers() == old(self).peers().insert(
                address@,
                PeerInfo {
                    messages_received: (old(self).peers()[address@].messages_received
                        + 1) as u64,
                    bytes_received: (old(self).peers()[address@].bytes_received + bytes) as u64,
                    failed_attempts: 0,
                    last_error: None,
                    last_seen: final(self).peers()[address@].last_seen,
                    ..old(self).peers()[address@]
                },
            ),
            !old(self).peers().contains_key(address@) ==> final(self).peers() == old(self).peers(),
    {
        match self.take_peer(address) {
            Some(p) => {
                let mut p = p;
                p.record_received(bytes);
                self.put_peer(address, p);
                proof {
                    assert(self.peers() =~= old(self).peers().insert(address@, p));
                }
            },
            None => {
                proof {
                    assert(self.peers() =~= old(self).peers());
                }
            },
        }
        self.stats.total_messages_received = self.stats.total_messages_received + 1;
        self.stats.total_bytes_received = self.stats.total_bytes_received + bytes;
    }

    /// Marks a peer disconnected once its connection has closed.
    pub fn mark_disconnected(&mut self, address: &str)
        requires
            old(self).wf(),
        ensures
            final(self).wf(),
            final(self).stats() == old(self).stats(),
            final(self).sequence() == old(self).sequence(),
            old(self).peers().contains_key(address@) ==> final(self).peers() == old(self).peers().insert(
                address@,
                PeerInfo { state: ConnectionState::Disconnected, ..old(self).peers()[address@] },
            ),
            !old(self).peers().contains_key(address@) ==> final(self).peers() == old(self).peers(),
    {
        match self.take_peer(address) {
            Some(p) => {
                let mut p = p;
                p.state = ConnectionState::Disconnected;
                self.put_peer(address, p);
                proof {
                    assert(self.peers() =~= old(self).peers().insert(address@, p));
                }
            },
            None => {
                proof {
                    assert(self.peers() =~= old(self).peers());
                }
            },
        }
    }

    /// Records a message of `bytes` bytes delivered to a peer after `latency_ms`.
    pub fn record_send_success(&mut self, address: &str, bytes: u64, latency_ms: u64)
        requires
            old(self).wf(),
            old(self).stats().total_messages_sent < u64::MAX,
            old(self).peers().contains_key(address@) ==> {
                let p = old(self).peers()[address@];
                &&& p.messages_sent < u64::MAX
                &&& p.bytes_sent + bytes <= u64::MAX
                &&& p.latency_ms == 0 || p.latency_ms * 70 + latency_ms * 30 <= u64::MAX
            },
        ensures
            final(self).wf(),
            final(self).sequence() == old(self).sequence(),
            final(self).stats() == (BroadcastStats {
                total_messages_sent: (old(self).stats().total_messages_sent + 1) as u64,
                ..old(self).stats()
            }),
            old(self).peers().contains_key(address@) ==> final(self).peers() == old(self).peers().insert(
                address@,
                PeerInfo {
                    messages_sent: (old(self).peers()[address@].messages_sent + 1) as u64,
                    bytes_sent: (old(self).peers()[address@].bytes_sent + bytes) as u64,
                    latency_ms: next_latency(
                        old(self).peers()[address@].latency_ms,
                        latency_ms,
                    ) as u64,
                    last_seen: final(self).peers()[address@].last_seen,
                    ..old(self).peers()[address@]
                },
            ),
            !old(self).peers().contains_key(address@) ==> final(self).peers() == old(self).peers(),
    {
        match self.take_peer(address) {
            Some(p) => {
                let mut p = p;
                p.record_sent(bytes, latency_ms);
                self.put_peer(address, p);
                proof {
                    assert(self.peers() =~= old(self).peers().insert(address@, p));
                }
            },
            None => {
                proof {
                    assert(self.peers() =~= old(self).peers());
                }
            },
        }
        self.stats.total_messages_sent = self.stats.total_messages_sent + 1;
    }

    /// Counts a failed send attempt.
    pub fn record_send_retry(&mut self)
        requires
            old(self).wf(),
            old(self).stats().message_retries < u64::MAX,
        ensures
            final(self).wf(),
            final(self).peers() == old(self).peers(),
            final(self).sequence() == old(self).sequence(),
            final(self).stats() == (BroadcastStats {
                message_retries: (old(self).stats().message_retries + 1) as u64,
                ..old(self).stats()
            }),
    {
        self.stats.message_retries = self.stats.message_retries + 1;
    }

    /// Records that every attempt to send to a peer failed, the last with `error`.
    pub fn record_send_failure(&mut self, address: &str, error: String)
        requires
            old(self).wf(),
            old(self).peers().contains_key(address@) ==> old(self).peers()[address@].failed_attempts
                < u32::MAX,
        ensures
            final(self).wf(),
            final(self).stats() == old(self).stats(),
            final(self).sequence() == old(self).sequence(),
            old(self).peers().contains_key(address@) ==> final(self).peers() == old(self).peers().insert(
                address@,
                PeerInfo {
                    failed_attempts: (old(self).peers()[address@].failed_attempts + 1) as u32,
                    last_error: Some(error),
                    state: if old(self).peers()[address@].failed_attempts + 1
                        > MAX_FAILED_ATTEMPTS {
                        ConnectionState::Failed
                    } else {
                        old(self).peers()[address@].state
                    },
                    ..old(self).peers()[address@]
                },
            ),
            !old(self).peers().contains_key(address@) ==> final(self).peers() == old(self).peers(),
    {
        match self.take_peer(address) {
            Some(p) => {
                let mut p = p;
                p.record_failure(error);
                self.put_peer(address, p);
                proof {
                    assert(self.peers() =~= old(self).peers().insert(address@, p));
                }
            },
            None => {
                proof {
                    assert(self.peers() =~= old(self).peers());
                }
            },
        }
    }

    /// Records a finished broadcast in the statistics.
    pub fn record_broadcast(&mut self, result: &BroadcastResult)
        requires
            old(self).wf(),
            old(self).stats().total_broadcasts < u64::MAX,
            old(self).stats().successful_broadcasts + result.successful <= u64::MAX,
            old(self).stats().failed_broadcasts + result.failed <= u64::MAX,
            old(self).stats().total_bytes_sent + result.total_bytes_sent <= u64::MAX,
        ensures
            final(self).wf(),
            final(self).peers() == old(self).peers(),
            final(self).sequence() == old(self).sequence(),
            final(self).stats() == (BroadcastStats {
                total_broadcasts: (old(self).stats().total_broadcasts + 1) as u64,
                successful_broadcasts: (old(self).stats().successful_broadcasts
                    + result.successful) as u64,
                failed_broadcasts: (old(self).stats().failed_broadcasts + result.failed) as u64,
                avg_broadcast_latency_ms: result.avg_latency_ms,
                total_bytes_sent: (old(self).stats().total_bytes_sent
                    + result.total_bytes_sent) as u64,
                ..old(self).stats()
            }),
    {
        self.stats.total_broadcasts = self.stats.total_broadcasts + 1;
        self.stats.successful_broadcasts = self.stats.successful_broadcasts
            + result.successful as u64;
        self.stats.failed_broadcasts = self.stats.failed_broadcasts + result.failed as u64;
        self.stats.avg_broadcast_latency_ms = result.avg_latency_ms;
        self.stats.total_bytes_sent = self.stats.total_bytes_sent + result.total_bytes_sent;
    }

    /// Get peer count
    pub fn get_peer_count(&self) -> (n: usize)
        requires
            self.wf(),
        ensures
            n == self.peers().dom().len(),
            n == self.peer_list().len(),
    {
        proof {
            self.lemma_peer_order();
        }
        self.peers.len()
    }

    /// Get connected peer count
    pub fn get_connected_peer_count(&self) -> (n: usize)
        requires
            self.wf(),
        ensures
            n == count_in_state(self.peer_list(), ConnectionState::Connected),
    {
        let n = self.peers.len();
        let mut count: usize = 0;
        let mut i: usize = 0;
        while i < n
            invariant
                self.peers.wf(),
                n == self.peers.key_list().len(),
                i <= n,
                count == count_in_state(
                    self.peers.values().take(i as int),
                    ConnectionState::Connected,
                ),
                count <= i,
            decreases n - i,
        {
            proof {
                self.peers.lemma_entries();
                assert(self.peers.values().take(i + 1).drop_last() =~= self.peers.values().take(
                    i as int,
                ));
            }
            if self.peers.value_at(i).state == ConnectionState::Connected {
                count = count + 1;
            }
            i = i + 1;
        }
        proof {
            self.peers.lemma_entries();
            assert(self.peers.values().take(n as int) =~= self.peers.values());
        }
        count
    }

    /// How long each peer has been silent, read from the clock, in table order.
    fn silences(&self) -> (elapsed: Vec<u128>)
        requires
            self.wf(),
        ensures
            elapsed@.len() == self.peer_list().len(),
    {
        let n = self.peers.len();
        let mut elapsed: Vec<u128> = Vec::new();
        let mut i: usize = 0;
        proof {
            self.peers.lemma_entries();
        }
        while i < n
            invariant
                self.peers.wf(),
                n == self.peers.key_list().len(),
                n == self.peers.values().len(),
                i <= n,
                elapsed@.len() == i,
            decreases n - i,
        {
            elapsed.push(nanos_since(&self.peers.value_at(i).last_seen));
            i = i + 1;
        }
        elapsed
    }

    /// The number of healthy peers, `elapsed[i]` being how long the `i`-th peer
    /// in table order has been silent: the connected peers that are not stale.
    pub fn healthy_count_after(&self, elapsed: &Vec<u128>) -> (n: usize)
        requires
            self.wf(),
            elapsed@.len() == self.peer_list().len(),
        ensures
            n == kept_connected(self.peer_list(), fresh_marks(elapsed@)).len(),
            n <= count_in_state(self.peer_list(), ConnectionState::Connected),
    {
        let n = self.peers.len();
        let mut count: usize = 0;
        let mut i: usize = 0;
        let ghost marks = fresh_marks(elapsed@);
        proof {
            self.peers.lemma_entries();
        }
        while i < n
            invariant
                self.peers.wf(),
                n == self.peers.key_list().len(),
                i <= n,
                elapsed@.len() == n,
                marks == fresh_marks(elapsed@),
                self.peers.values().len() == n,
                count <= count_in_state(
                    self.peers.values().take(i as int),
                    ConnectionState::Connected,
                ),
                count <= i,
                count == kept_connected(self.peers.values().take(i as int), marks.take(i as int)).len(),
            decreases n - i,
        {
            proof {
                self.peers.lemma_entries();
                assert(self.peers.values().take(i + 1).drop_last() =~= self.peers.values().take(
                    i as int,
                ));
                assert(marks.take(i + 1).drop_last() =~= marks.take(i as int));
            }
            let healthy = self.peers.value_at(i).is_healthy_after(elapsed[i]);
            if healthy {
                count = count + 1;
            }
            i = i + 1;
        }
        proof {
            self.peers.lemma_entries();
            assert(self.peers.values().take(n as int) =~= self.peers.values());
            assert(marks.take(n as int) =~= marks);
        }
        count
    }

    /// Get healthy peer count: connected peers not stale by the clock.
    pub fn get_healthy_peer_count(&self) -> (n: usize)
        requires
            self.wf(),
        ensures
            n <= count_in_state(self.peer_list(), ConnectionState::Connected),
            exists|elapsed: Seq<u128>|
                elapsed.len() == self.peer_list().len() && n == (#[trigger] kept_connected(
                    self.peer_list(),
                    fresh_marks(elapsed),
                )).len(),
    {
        let elapsed = self.silences();
        self.healthy_count_after(&elapsed)
    }

    /// Get peer info
    pub fn get_peer_info(&self, address: &str) -> (r: Result<PeerInfo, SyncError>)
        requires
            self.wf(),
        ensures
            self.peers().contains_key(address@) ==> (r matches Ok(p) && p.same_but_last_seen(
                &self.peers()[address@],
            ) && p.last_seen == self.peers()[address@].last_seen),
            !self.peers().contains_key(address@) ==> (r matches Err(e) && sync_error_text(e)
                == peer_error_text(address@, " not found"@)),
    {
        match self.peer_copy(address) {
            Some(p) => Ok(p),
            None => Err(peer_error(address, " not found")),
        }
    }

    /// Get all peers, in table order
    pub fn get_all_peers(&self) -> (v: Vec<PeerInfo>)
        requires
            self.wf(),
        ensures
            v@.len() == self.peer_list().len(),
            forall|i: int|
                0 <= i < v@.len() ==> #[trigger] v@[i].same_but_last_seen(&self.peer_list()[i])
                    && v@[i].last_seen == self.peer_list()[i].last_seen,
    {
        let n = self.peers.len();
        let mut v: Vec<PeerInfo> = Vec::new();
        let mut i: usize = 0;
        proof {
            self.peers.lemma_entries();
        }
        while i < n
            invariant
                self.peers.wf(),
                n == self.peers.key_list().len(),
                n == self.peers.values().len(),
                i <= n,
                v@.len() == i,
                forall|j: int|
                    0 <= j < i ==> #[trigger] v@[j].same_but_last_seen(&self.peers.values()[j])
                        && v@[j].last_seen == self.peers.values()[j].last_seen,
            decreases n - i,
        {
            v.push(self.peers.value_at(i).copy());
            i = i + 1;
        }
        v
    }

    /// Copies of the healthy peers, in table order, `elapsed[i]` being how long
    /// the `i`-th peer has been silent: the connected peers that are not stale.
    pub fn healthy_peers_after(&self, elapsed: &Vec<u128>) -> (v: Vec<PeerInfo>)
        requires
            self.wf(),
            elapsed@.len() == self.peer_list().len(),
        ensures
            same_records(v@, kept_connected(self.peer_list(), fresh_marks(elapsed@))),
            forall|i: int| 0 <= i < v@.len() ==> #[trigger] v@[i].state == ConnectionState::Connected,
            v@.len() <= count_in_state(self.peer_list(), ConnectionState::Connected),
    {
        let n = self.peers.len();
        let mut v: Vec<PeerInfo> = Vec::new();
        let mut i: usize = 0;
        let ghost marks = fresh_marks(elapsed@);
        proof {
            self.peers.lemma_entries();
        }
        while i < n
            invariant
                self.peers.wf(),
                n == self.peers.key_list().len(),
                i <= n,
                elapsed@.len() == n,
                marks == fresh_marks(elapsed@),
                self.peers.values().len() == n,
                v@.len() <= count_in_state(
                    self.peers.values().take(i as int),
                    ConnectionState::Connected,
                ),
                forall|j: int| 0 <= j < v@.len() ==> #[trigger] v@[j].state == ConnectionState::Connected,
                same_records(v@, kept_connected(self.peers.values().take(i as int), marks.take(i as int))),
            decreases n - i,
        {
            proof {
                self.peers.lemma_entries();
                assert(self.peers.values().take(i + 1).drop_last() =~= self.peers.values().take(
                    i as int,
                ));
                assert(marks.take(i + 1).drop_last() =~= marks.take(i as int));
            }
            let p = self.peers.value_at(i);
            let healthy = p.is_healthy_after(elapsed[i]);
            if healthy {
                let c = p.copy();
                let ghost before = v@;
                v.push(c);
                proof {
                    let k = kept_connected(self.peers.values().take(i + 1), marks.take(i + 1));
                    assert(k == kept_connected(self.peers.values().take(i as int), marks.take(i as int)).push(
                        self.peers.values()[i as int],
                    ));
                    assert forall|j: int| 0 <= j < v@.len() implies #[trigger] v@[j].same_but_last_seen(
                        &k[j],
                    ) && v@[j].last_seen == k[j].last_seen by {
                        if j < before.len() {
                            assert(v@[j] == before[j]);
                        }
                    }
                }
            }
            i = i + 1;
        }
        proof {
            self.peers.lemma_entries();
            assert(self.peers.values().take(n as int) =~= self.peers.values());
            assert(marks.take(n as int) =~= marks);
        }
        v
    }

    /// Get all healthy peers, in table order: copies of the connected peers that
    /// the clock does not find stale.
    pub fn get_healthy_peers(&self) -> (v: Vec<PeerInfo>)
        requires
            self.wf(),
        ensures
            forall|i: int| 0 <= i < v@.len() ==> #[trigger] v@[i].state == ConnectionState::Connected,
            v@.len() <= count_in_state(self.peer_list(), ConnectionState::Connected),
            exists|elapsed: Seq<u128>|
                elapsed.len() == self.peer_list().len() && same_records(
                    v@,
                    #[trigger] kept_connected(self.peer_list(), fresh_marks(elapsed)),
                ),
    {
        let elapsed = self.silences();
        self.healthy_peers_after(&elapsed)
    }

    /// Removes the stale peers, `elapsed[i]` being how long the `i`-th peer in
    /// table order has been silent; gives how many were removed.
    pub fn cleanup_stale_peers_after(&mut self, elapsed: &Vec<u128>) -> (removed: usize)
        requires
            old(self).wf(),
            elapsed@.len() == old(self).peer_addresses().len(),
        ensures
            final(self).wf(),
            final(self).sequence() == old(self).sequence(),
            final(self).peers() == fresh_peers(
                old(self).peers(),
                old(self).peer_addresses(),
                elapsed@,
            ),
            removed == old(self).peers().dom().len() - final(self).peers().dom().len(),
            final(self).stats() == (BroadcastStats {
                peer_count: final(self).peers().dom().len() as u64,
                ..old(self).stats()
            }),
    {
        let n = self.peers.len();
        let ghost keys = self.peers.key_list();
        let ghost pre = self.peers@;
        let mut stale: Vec<String> = Vec::new();
        let ghost mut stale_set: Set<Seq<char>> = Set::empty();
        let mut i: usize = 0;
        proof {
            self.peers.lemma_entries();
        }
        while i < n
            invariant
                self.peers.wf(),
                self.stats == old(self).stats,
                self.message_sequence == old(self).message_sequence,
                self.peers == old(self).peers,
                keys == self.peers.key_list(),
                pre == self.peers@,
                keys.no_duplicates(),
                forall|k: Seq<char>| #[trigger] pre.contains_key(k) <==> keys.contains(k),
                n == keys.len(),
                elapsed@.len() == n,
                i <= n,
                stale@.map_values(|t: String| t@).to_set() == stale_set,
                stale_set == pre.dom().filter(
                    |k: Seq<char>| keys.index_of(k) < i && stale_after(elapsed@[keys.index_of(k)]),
                ),
            decreases n - i,
        {
            proof {
                let k = keys[i as int];
                assert(keys.contains(k));
                assert(keys.index_of(k) == i) by {
                    let j = keys.index_of(k);
                    if j != i {
                        assert(keys[j] == k);
                    }
                }
            }
            if self.peers.value_at(i).is_stale_after(elapsed[i]) {
                let key = self.peers.key_at(i).clone();
                let ghost before = stale@;
                stale.push(key);
                proof {
                    assert(stale@ == before.push(key));
                    assert(stale@.map_values(|t: String| t@) =~= before.map_values(|t: String| t@).push(
                        key@,
                    ));
                    assert(stale@.map_values(|t: String| t@).to_set() =~= before.map_values(
                        |t: String| t@,
                    ).to_set().insert(key@)) by {
                        let sv = stale@.map_values(|t: String| t@);
                        let bv = before.map_values(|t: String| t@);
                        assert forall|x: Seq<char>| sv.to_set().contains(x) implies bv.to_set().insert(
                            key@,
                        ).contains(x) by {
                            let q = sv.index_of(x);
                            if q < bv.len() {
                                assert(bv[q] == x);
                            }
                        }
                        assert forall|x: Seq<char>| bv.to_set().insert(key@).contains(x) implies sv.to_set().contains(
                            x,
                        ) by {
                            if x == key@ {
                                assert(sv[bv.len() as int] == x);
                            } else {
                                let q = bv.index_of(x);
                                assert(sv[q] == x);
                            }
                        }
                    }
                    stale_set = stale_set.insert(key@);
                }
            }
            proof {
                let k = keys[i as int];
                assert(stale_set =~= pre.dom().filter(
                    |x: Seq<char>| keys.index_of(x) < i + 1 && stale_after(elapsed@[keys.index_of(x)]),
                ));
            }
            i = i + 1;
        }
        let mut j: usize = 0;
        while j < stale.len()
            invariant
                self.peers.wf(),
                self.stats == old(self).stats,
                self.message_sequence == old(self).message_sequence,
                j <= stale@.len(),
                self.peers@ == pre.remove_keys(stale@.take(j as int).map_values(|t: String| t@).to_set()),
                forall|k: Seq<char>| #[trigger]
                    self.peers@.contains_key(k) ==> self.peers@[k].address@ == k,
            decreases stale@.len() - j,
        {
            let ghost before = self.peers@;
            self.peers.remove(stale[j].as_str());
            proof {
                let sj = stale@.take(j as int).map_values(|t: String| t@).to_set();
                let sj1 = stale@.take(j + 1).map_values(|t: String| t@).to_set();
                assert(sj1 =~= sj.insert(stale@[j as int]@)) by {
                    let a = stale@.take(j as int).map_values(|t: String| t@);
                    let b = stale@.take(j + 1).map_values(|t: String| t@);
                    assert(b =~= a.push(stale@[j as int]@));
                    assert forall|x: Seq<char>| b.to_set().contains(x) implies a.to_set().insert(
                        stale@[j as int]@,
                    ).contains(x) by {
                        let q = b.index_of(x);
                        if q < a.len() {
                            assert(a[q] == x);
                        }
                    }
                    assert forall|x: Seq<char>| a.to_set().insert(stale@[j as int]@).contains(x) implies b.to_set().contains(
                        x,
                    ) by {
                        if x == stale@[j as int]@ {
                            assert(b[j as int] == x);
                        } else {
                            let q = a.index_of(x);
                            assert(b[q] == x);
                        }
                    }
                }
                assert(self.peers@ =~= pre.remove_keys(sj1));
            }
            j = j + 1;
        }
        proof {
            assert(stale@.take(stale@.len() as int) =~= stale@);
            let f = fresh_peers(pre, keys, elapsed@);
            assert(self.peers@ =~= f) by {
                assert forall|k: Seq<char>| #![auto] self.peers@.contains_key(k) == f.contains_key(k) by {
                    if pre.contains_key(k) {
                        assert(keys.contains(k));
                        let q = keys.index_of(k);
                        assert(q < n);
                    }
                }
            }
            self.peers.lemma_dom();
            old(self).peers.lemma_dom();
            vstd::set_lib::lemma_len_subset(self.peers@.dom(), old(self).peers@.dom());
        }
        let remaining = self.peers.len();
        self.stats.peer_count = remaining as u64;
        n - remaining
    }

    /// Clean up stale peers, by the clock; gives how many were removed.
    pub fn cleanup_stale_peers(&mut self) -> (removed: usize)
        requires
            old(self).wf(),
        ensures
            final(self).wf(),
            final(self).sequence() == old(self).sequence(),
            final(self).peers().submap_of(old(self).peers()),
            removed == old(self).peers().dom().len() - final(self).peers().dom().len(),
            final(self).stats() == (BroadcastStats {
                peer_count: final(self).peers().dom().len() as u64,
                ..old(self).stats()
            }),
            exists|elapsed: Seq<u128>|
                elapsed.len() == old(self).peer_addresses().len() && final(self).peers() == #[trigger] fresh_peers(
                    old(self).peers(),
                    old(self).peer_addresses(),
                    elapsed,
                ),
    {
        let elapsed = self.silences();
        proof {
            self.lemma_peer_order();
        }
        self.cleanup_stale_peers_after(&elapsed)
    }

    /// Peers worth another connection attempt: failed, with fewer than ten
    /// failures; their addresses in table order.
    pub fn reconnect_candidates(&self) -> (v: Vec<String>)
        requires
            self.wf(),
        ensures
            v@.map_values(|s: String| s@) == keys_where(
                self.peer_addresses(),
                self.peer_list(),
                |p: PeerInfo| reconnectable(p),
            ),
            v@.map_values(|s: String| s@) == reconnect_list(self.peer_addresses(), self.peer_list()),
    {
        self.addresses_where(false)
    }

    /// Addresses of connected peers, in table order: where a broadcast is sent.
    pub fn connected_peer_addresses(&self) -> (v: Vec<String>)
        requires
            self.wf(),
        ensures
            v@.map_values(|s: String| s@) == keys_where(
                self.peer_addresses(),
                self.peer_list(),
                |p: PeerInfo| is_connected(p),
            ),
    {
        self.addresses_where(true)
    }

    fn addresses_where(&self, connected: bool) -> (v: Vec<String>)
        requires
            self.wf(),
        ensures
            v@.map_values(|s: String| s@) == keys_where(
                self.peer_addresses(),
                self.peer_list(),
                if connected {
                    |p: PeerInfo| is_connected(p)
                } else {
                    |p: PeerInfo| reconnectable(p)
                },
            ),
    {
        let ghost pred = if connected {
            |p: PeerInfo| is_connected(p)
        } else {
            |p: PeerInfo| reconnectable(p)
        };
        let n = self.peers.len();
        let mut v: Vec<String> = Vec::new();
        let mut i: usize = 0;
        proof {
            self.peers.lemma_entries();
        }
        while i < n
            invariant
                self.peers.wf(),
                n == self.peers.key_list().len(),
                n == self.peers.values().len(),
                i <= n,
                pred == (if connected {
                    |p: PeerInfo| is_connected(p)
                } else {
                    |p: PeerInfo| reconnectable(p)
                }),
                v@.map_values(|s: String| s@) == keys_where(
                    self.peers.key_list().take(i as int),
                    self.peers.values().take(i as int),
                    pred,
                ),
            decreases n - i,
        {
            let p = self.peers.value_at(i);
            let take = if connected {
                p.state == ConnectionState::Connected
            } else {
                p.state == ConnectionState::Failed && p.failed_attempts < 10
            };
            proof {
                assert(self.peers.key_list().take(i + 1).drop_last() =~= self.peers.key_list().take(
                    i as int,
                ));
                assert(self.peers.values().take(i + 1).drop_last() =~= self.peers.values().take(
                    i as int,
                ));
                assert(take == pred(self.peers.values()[i as int]));
            }
            if take {
                let ghost before = v@;
                v.push(self.peers.key_at(i).clone());
                proof {
                    assert(v@.map_values(|s: String| s@) =~= before.map_values(|s: String| s@).push(
                        self.peers.key_list()[i as int],
                    ));
                }
            }
            i = i + 1;
        }
        proof {
            assert(self.peers.key_list().take(n as int) =~= self.peers.key_list());
            assert(self.peers.values().take(n as int) =~= self.peers.values());
        }
        v
    }

    /// The statistics as counted, the peer counts as kept rather than recounted.
    pub fn counters(&self) -> (s: BroadcastStats)
        ensures
            s == self.stats(),
    {
        self.stats
    }

    /// Get broadcast statistics, with the peer counts recounted from the peer
    /// table.
    pub fn get_stats(&self) -> (s: BroadcastStats)
        requires
            self.wf(),
        ensures
            s == (BroadcastStats {
                peer_count: self.peer_list().len() as u64,
                connected_peer_count: count_in_state(
                    self.peer_list(),
                    ConnectionState::Connected,
                ) as u64,
                ..self.stats()
            }),
    {
        let mut s = self.stats;
        s.peer_count = self.get_peer_count() as u64;
        s.connected_peer_count = self.get_connected_peer_count() as u64;
        s
    }

    /// Reset statistics
    pub fn reset_stats(&mut self)
        ensures
            final(self).stats() == BroadcastStats::zero(),
            final(self).peers() == old(self).peers(),
            final(self).peer_list() == old(self).peer_list(),
            final(self).peer_addresses() == old(self).peer_addresses(),
            final(self).sequence() == old(self).sequence(),
            old(self).wf() ==> final(self).wf(),
    {
        self.stats = BroadcastStats::default();
    }

    /// Advances the message sequence counter and gives its new value.
    #[allow(dead_code)]
    fn next_sequence(&mut self) -> (n: u64)
        requires
            old(self).sequence() < u64::MAX,
        ensures
            n == old(self).sequence() + 1,
            final(self).sequence() == n,
            final(self).peers() == old(self).peers(),
            final(self).stats() == old(self).stats(),
            old(self).wf() ==> final(self).wf(),
    {
        self.message_sequence = self.message_sequence + 1;
        self.message_sequence
    }

    /// Takes the next envelope sequence number; the counter saturates at
    /// `u64::MAX`.
    pub fn take_sequence_number(&mut self) -> (n: u64)
        ensures
            n == old(self).sequence(),
            final(self).sequence() == old(self).sequence().saturating_add(1),
            final(self).peers() == old(self).peers(),
            final(self).stats() == old(self).stats(),
            old(self).wf() ==> final(self).wf(),
    {
        let n = self.message_sequence;
        self.message_sequence = n.saturating_add(1);
        n
    }
}

impl Default for ValidatorNetworkManager {
    /// A manager on `127.0.0.1:0` whose validator ID is 32 zero bytes.
    fn default() -> (m: Self)
        ensures
            m.wf(),
            m.peers() == Map::<Seq<char>, PeerInfo>::empty(),
            m.local_address() == "127.0.0.1:0"@,
            m.own_id() == Seq::new(32, |i: int| 0u8),
            m.stats() == BroadcastStats::zero(),
            m.sequence() == 0,
    {
        let mut id: Vec<u8> = Vec::new();
        let mut i: usize = 0;
        while i < 32
            invariant
                i <= 32,
                id@ == Seq::new(i as nat, |j: int| 0u8),
            decreases 32 - i,
        {
            id.push(0u8);
            proof {
                assert(id@ =~= Seq::new((i + 1) as nat, |j: int| 0u8));
            }
            i = i + 1;
        }
        Self::new(String::from_str("127.0.0.1:0"), id)
    }
}

} // verus!
