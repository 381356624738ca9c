//! The network handle: broadcasting encoded transactions and mined batches over
//! gossip, and reaching the mining pool where there is one.

use crate::error::NetworkError;
use crate::gossip::{broadcast_step, broadcast_topic, GossipProtocol};
use crate::message::MessageType;
use crate::mining_pool::MiningPoolManager;
use vstd::prelude::*;

verus! {

/// Network handle for broadcasting and communication.
pub struct NetworkHandle {
    gossip: GossipProtocol,
    pool_manager: Option<MiningPoolManager>,
}

impl NetworkHandle {
    /// The gossip protocol state
    pub closed spec fn gossip_state(&self) -> GossipProtocol {
        self.gossip
    }

    /// The mining pool, if the handle has one
    pub closed spec fn pool(&self) -> Option<MiningPoolManager> {
        self.pool_manager
    }

    /// Whether the handle has a mining pool
    pub open spec fn has_pool(&self) -> bool {
        self.pool() is Some
    }

    /// Create a new network handle
    pub fn new(gossip: GossipProtocol) -> (h: Self)
        ensures
            h.gossip_state() == gossip,
            !h.has_pool(),
    {
        NetworkHandle { gossip, pool_manager: None }
    }

    /// Create a network handle with mining pool support
    pub fn with_mining_pool(gossip: GossipProtocol, pool_manager: MiningPoolManager) -> (h: Self)
        ensures
            h.gossip_state() == gossip,
            h.pool() == Some(pool_manager),
    {
        NetworkHandle { gossip, pool_manager: Some(pool_manager) }
    }

    /// Broadcast an encoded transaction to all peers on the transactions topic
    pub fn broadcast_transaction(&mut self, encoded_tx: Vec<u8>) -> (r: Result<(), NetworkError>)
        requires
            old(self).gossip_state().wf(),
            broadcast_topic(MessageType::Transaction) matches Some(t) && old(
                self,
            ).gossip_state().topics().contains_key(t) && !old(self).gossip_state().cache().contains_key(
                encoded_tx@,
            ) ==> {
                &&& old(self).gossip_state().gossip_stats().total_sent < u64::MAX
                &&& old(self).gossip_state().gossip_stats().total_bytes_sent + encoded_tx@.len()
                    <= u64::MAX
            },
        ensures
            final(self).gossip_state().wf(),
            exists|now: u128|
                #[trigger] broadcast_step(
                    old(self).gossip_state(),
                    final(self).gossip_state(),
                    MessageType::Transaction,
                    encoded_tx@,
                    now,
                    r,
                ),
            final(self).pool() == old(self).pool(),
    {
        self.gossip.broadcast(MessageType::Transaction, encoded_tx)
    }

    /// Broadcast an encoded batch (mined block) to all peers on the batches topic
    pub fn broadcast_batch(&mut self, encoded_batch: Vec<u8>) -> (r: Result<(), NetworkError>)
        requires
            old(self).gossip_state().wf(),
            broadcast_topic(MessageType::Batch) matches Some(t) && old(
                self,
            ).gossip_state().topics().contains_key(t) && !old(self).gossip_state().cache().contains_key(
                encoded_batch@,
            ) ==> {
                &&& old(self).gossip_state().gossip_stats().total_sent < u64::MAX
                &&& old(self).gossip_state().gossip_stats().total_bytes_sent + encoded_batch@.len()
                    <= u64::MAX
            },
        ensures
            final(self).gossip_state().wf(),
            exists|now: u128|
                #[trigger] broadcast_step(
                    old(self).gossip_state(),
                    final(self).gossip_state(),
                    MessageType::Batch,
                    encoded_batch@,
                    now,
                    r,
                ),
            final(self).pool() == old(self).pool(),
    {
        self.gossip.broadcast(MessageType::Batch, encoded_batch)
    }

    /// Get mining pool manager if available
    pub fn mining_pool(&self) -> (p: Option<&MiningPoolManager>)
        ensures
            p is Some <==> self.has_pool(),
            p matches Some(m) ==> self.pool() == Some(*m),
    {
        self.pool_manager.as_ref()
    }

    /// The gossip protocol
    pub fn gossip(&self) -> (g: &GossipProtocol)
        ensures
            *g == self.gossip_state(),
    {
        &self.gossip
    }
}

} // verus!
