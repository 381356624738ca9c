//! Network message types for Proof-of-Work mining. Transactions and batches travel
//! in their encoded form; encoding a whole message is done by the binary codec
//! outside the library.

use vstd::prelude::*;

verus! {

/// Network message types for Proof-of-Work mining
#[derive(Debug)]
pub enum NetworkMessage {
    /// Transaction message, the transaction in its encoded form
    Transaction(Vec<u8>),
    /// Transaction batch message (mined block), the batch in its encoded form
    Batch(Vec<u8>),
    /// Work package for mining pool
    WorkPackage {
        /// Work ID
        work_id: u64,
        /// Block header data
        header: Vec<u8>,
        /// Target difficulty
        target: u64,
        /// Chain ID
        chain_id: u32,
    },
    /// Miner share submission
    MinerShare {
        /// Work ID
        work_id: u64,
        /// Nonce found by miner
        nonce: u64,
        /// Miner address
        miner_address: Vec<u8>,
    },
    /// Request for batches
    BatchRequest {
        /// Starting batch sequence
        from_sequence: u64,
        /// Ending batch sequence
        to_sequence: u64,
    },
    /// Response to batch request, the batches in their encoded form
    BatchResponse {
        /// Requested batches
        batches: Vec<Vec<u8>>,
    },
    /// Ping message for keep-alive
    Ping {
        /// Timestamp
        timestamp: u64,
    },
    /// Pong response to ping
    Pong {
        /// Original timestamp from ping
        timestamp: u64,
    },
}

/// Message type identifier
#[derive(Debug, Clone, Copy, PartialEq, Eq, Structural, Hash)]
pub enum MessageType {
    /// Transaction
    Transaction,
    /// Batch
    Batch,
    /// Work package
    WorkPackage,
    /// Miner share
    MinerShare,
    /// Batch request
    BatchRequest,
    /// Batch response
    BatchResponse,
    /// Ping
    Ping,
    /// Pong
    Pong,
}

/// The type of a message: its variant.
pub open spec fn kind_of(m: NetworkMessage) -> MessageType {
    match m {
        NetworkMessage::Transaction(_) => MessageType::Transaction,
        NetworkMessage::Batch(_) => MessageType::Batch,
        NetworkMessage::WorkPackage { .. } => MessageType::WorkPackage,
        NetworkMessage::MinerShare { .. } => MessageType::MinerShare,
        NetworkMessage::BatchRequest { .. } => MessageType::BatchRequest,
        NetworkMessage::BatchResponse { .. } => MessageType::BatchResponse,
        NetworkMessage::Ping { .. } => MessageType::Ping,
        NetworkMessage::Pong { .. } => MessageType::Pong,
    }
}

/// Bytes one encoded batch is estimated to take.
pub const BATCH_SIZE_ESTIMATE: usize = 524288;

/// The estimated encoded size of a message, in bytes.
pub open spec fn size_estimate(m: NetworkMessage) -> int {
    match m {
        NetworkMessage::Transaction(_) => 1024,
        NetworkMessage::Batch(_) => BATCH_SIZE_ESTIMATE as int,
        NetworkMessage::WorkPackage { .. } => 256,
        NetworkMessage::MinerShare { .. } => 128,
        NetworkMessage::BatchRequest { .. } => 64,
        NetworkMessage::BatchResponse { batches } => batches@.len() * BATCH_SIZE_ESTIMATE,
        NetworkMessage::Ping { .. } => 32,
        NetworkMessage::Pong { .. } => 32,
    }
}

/// The name of a message type, as its `Debug` form writes it.
pub open spec fn message_type_name(t: MessageType) -> Seq<char> {
    match t {
        MessageType::Transaction => "Transaction"@,
        MessageType::Batch => "Batch"@,
        MessageType::WorkPackage => "WorkPackage"@,
        MessageType::MinerShare => "MinerShare"@,
        MessageType::BatchRequest => "BatchRequest"@,
        MessageType::BatchResponse => "BatchResponse"@,
        MessageType::Ping => "Ping"@,
        MessageType::Pong => "Pong"@,
    }
}

impl MessageType {
    /// The name of the type, as its `Debug` form writes it.
    pub fn name(&self) -> (s: &'static str)
        ensures
            s@ == message_type_name(*self),
    {
        match self {
            MessageType::Transaction => "Transaction",
            MessageType::Batch => "Batch",
            MessageType::WorkPackage => "WorkPackage",
            MessageType::MinerShare => "MinerShare",
            MessageType::BatchRequest => "BatchRequest",
            MessageType::BatchResponse => "BatchResponse",
            MessageType::Ping => "Ping",
            MessageType::Pong => "Pong",
        }
    }
}

impl NetworkMessage {
    /// Get the message type
    pub fn message_type(&self) -> (t: MessageType)
        ensures
            t == kind_of(*self),
    {
        match self {
            NetworkMessage::Transaction(_) => MessageType::Transaction,
            NetworkMessage::Batch(_) => MessageType::Batch,
            NetworkMessage::WorkPackage { .. } => MessageType::WorkPackage,
            NetworkMessage::MinerShare { .. } => MessageType::MinerShare,
            NetworkMessage::BatchRequest { .. } => MessageType::BatchRequest,
            NetworkMessage::BatchResponse { .. } => MessageType::BatchResponse,
            NetworkMessage::Ping { .. } => MessageType::Ping,
            NetworkMessage::Pong { .. } => MessageType::Pong,
        }
    }

    /// Get estimated size of message in bytes
    pub fn estimated_size(&self) -> (n: usize)
        requires
            size_estimate(*self) <= usize::MAX,
        ensures
            n == size_estimate(*self),
    {
        match self {
            NetworkMessage::Transaction(_) => 1024,
            NetworkMessage::Batch(_) => BATCH_SIZE_ESTIMATE,
            NetworkMessage::WorkPackage { .. } => 256,
            NetworkMessage::MinerShare { .. } => 128,
            NetworkMessage::BatchRequest { .. } => 64,
            NetworkMessage::BatchResponse { batches } => batches.len() * BATCH_SIZE_ESTIMATE,
            NetworkMessage::Ping { .. } => 32,
            NetworkMessage::Pong { .. } => 32,
        }
    }
}

} // verus!
