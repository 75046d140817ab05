//! The node service: the connection target, the sync-peer requirement, and
//! the pure halves of the remote queries.
//!
//! The remote calls themselves (connecting, streaming, timeouts) belong to
//! the caller; each query's computation over the fetched values stands here
//! with its contract.

use crate::readiness::{spec_decode_readiness, ReadinessStatus, STATE_NOT_READY};
use crate::status::{BaseNodeStatus, NetworkStateView};
use crate::text::{bytes_to_hex, spec_hex};
use vstd::prelude::*;

verus! {

/// A handle on one node: its connection target and the number of peers the
/// sync coordinator requires during startup.
#[derive(Clone, Debug)]
pub struct NodeAdapterService {
    pub connection_address: String,
    pub required_sync_peers: u32,
}

impl NodeAdapterService {
    pub fn new(connection_address: String, required_sync_peers: u32) -> (r: Self)
        ensures
            r.connection_address@ == connection_address@,
            r.required_sync_peers == required_sync_peers,
    {
        NodeAdapterService { connection_address, required_sync_peers }
    }

    /// The connection target, for the caller that dials the node.
    pub fn connection_address(&self) -> (r: &str)
        ensures
            r@ == self.connection_address@,
    {
        self.connection_address.as_str()
    }

    /// Builds the status snapshot from a fetched network-state report:
    /// absent metadata fields default to zero, absent readiness to the
    /// NOT_READY state.
    pub fn get_network_state(&self, resp: &NetworkStateView) -> (r: BaseNodeStatus)
        ensures
            r.sha_network_hashrate == resp.sha3x_estimated_hash_rate,
            r.monero_randomx_network_hashrate == resp.monero_randomx_estimated_hash_rate,
            r.tari_randomx_network_hashrate == resp.tari_randomx_estimated_hash_rate,
            r.block_reward == resp.reward,
            r.block_height == (match resp.metadata {
                Some(m) => m.best_block_height,
                None => 0,
            }),
            r.block_time == (match resp.metadata {
                Some(m) => m.timestamp,
                None => 0,
            }),
            r.is_synced == resp.initial_sync_achieved,
            r.num_connections == resp.num_connections,
            r.readiness_status == (match resp.readiness_status {
                Some(w) => spec_decode_readiness(w),
                None => ReadinessStatus::State(STATE_NOT_READY),
            }),
    {
        let block_height = match &resp.metadata {
            Some(m) => m.best_block_height,
            None => 0,
        };
        let block_time = match &resp.metadata {
            Some(m) => m.timestamp,
            None => 0,
        };
        let readiness_status = match &resp.readiness_status {
            Some(w) => ReadinessStatus::from_wire(*w),
            None => ReadinessStatus::State(STATE_NOT_READY),
        };
        BaseNodeStatus {
            sha_network_hashrate: resp.sha3x_estimated_hash_rate,
            monero_randomx_network_hashrate: resp.monero_randomx_estimated_hash_rate,
            tari_randomx_network_hashrate: resp.tari_randomx_estimated_hash_rate,
            block_reward: resp.reward,
            block_height,
            block_time,
            is_synced: resp.initial_sync_achieved,
            num_connections: resp.num_connections,
            readiness_status,
        }
    }

    /// Renders fetched block headers for comparison: each height is kept and
    /// each hash is rendered as lowercase hex.
    pub fn render_historical_blocks(&self, blocks: &Vec<(u64, Vec<u8>)>) -> (r: Vec<(u64, String)>)
        ensures
            r@.len() == blocks@.len(),
            forall|i: int|
                0 <= i < blocks@.len() ==> r@[i].0 == blocks@[i].0 && r@[i].1@ == spec_hex(
                    blocks@[i].1@,
                ),
    {
        let mut r: Vec<(u64, String)> = Vec::new();
        let mut i: usize = 0;
        while i < blocks.len()
            invariant
                i <= blocks@.len(),
                r@.len() == i,
                forall|j: int|
                    0 <= j < i ==> r@[j].0 == blocks@[j].0 && r@[j].1@ == spec_hex(blocks@[j].1@),
            decreases blocks@.len() - i,
        {
            let (height, hash) = &blocks[i];
            r.push((*height, bytes_to_hex(hash.as_slice())));
            i += 1;
        }
        r
    }
}

} // verus!
