//! Value snapshots of the node's reported state, and the monitor's error
//! taxonomy.

use crate::readiness::{ReadinessStatus, WireReadinessStatus, STATE_NOT_READY};
use vstd::prelude::*;
use vstd::string::StringExecFns;

verus! {

/// Chain metadata as carried inside the node's network-state report.
#[derive(Clone, Copy, Debug, PartialEq, Eq)]
pub struct ChainMetadataView {
    pub best_block_height: u64,
    pub timestamp: u64,
}

/// The node's network-state report, each field the monitor reads held as a
/// plain value. Optional fields may be absent on the wire.
#[derive(Clone, Copy, Debug, PartialEq, Eq)]
pub struct NetworkStateView {
    pub sha3x_estimated_hash_rate: u64,
    pub monero_randomx_estimated_hash_rate: u64,
    pub tari_randomx_estimated_hash_rate: u64,
    pub reward: u64,
    pub metadata: Option<ChainMetadataView>,
    pub initial_sync_achieved: bool,
    pub num_connections: u64,
    pub readiness_status: Option<WireReadinessStatus>,
}

/// A snapshot of the node's status, produced once per poll cycle. The
/// default value stands for "never queried".
#[derive(Clone, Copy, Debug, PartialEq, Eq)]
pub struct BaseNodeStatus {
    pub sha_network_hashrate: u64,
    pub monero_randomx_network_hashrate: u64,
    pub tari_randomx_network_hashrate: u64,
    pub block_reward: u64,
    pub block_height: u64,
    pub block_time: u64,
    pub is_synced: bool,
    pub num_connections: u64,
    pub readiness_status: ReadinessStatus,
}

impl Default for BaseNodeStatus {
    /// The "never queried" snapshot: every counter zero, not synced, not
    /// ready.
    fn default() -> (r: Self)
        ensures
            r.sha_network_hashrate == 0,
            r.monero_randomx_network_hashrate == 0,
            r.tari_randomx_network_hashrate == 0,
            r.block_reward == 0,
            r.block_height == 0,
            r.block_time == 0,
            !r.is_synced,
            r.num_connections == 0,
            r.readiness_status == ReadinessStatus::State(STATE_NOT_READY),
    {
        BaseNodeStatus {
            sha_network_hashrate: 0,
            monero_randomx_network_hashrate: 0,
            tari_randomx_network_hashrate: 0,
            block_reward: 0,
            block_height: 0,
            block_time: 0,
            is_synced: false,
            num_connections: 0,
            readiness_status: ReadinessStatus::State(STATE_NOT_READY),
        }
    }
}

/// The node's identity, used only as a liveness probe: a public key and the
/// addresses it advertises.
#[derive(Clone, Debug, PartialEq, Eq)]
pub struct NodeIdentity {
    pub public_key: Vec<u8>,
    pub public_addresses: Vec<String>,
}

/// Failures of the monitor's remote calls: the connection could not be
/// established, or anything else went wrong in transport or decoding.
#[derive(Clone, Debug)]
pub enum NodeStatusMonitorError {
    UnknownError(String),
    NodeNotStarted,
}

/// The message of a monitor error.
pub open spec fn spec_error_message(e: NodeStatusMonitorError) -> Seq<char> {
    match e {
        NodeStatusMonitorError::UnknownError(detail) => "Unknown error: "@ + detail@,
        NodeStatusMonitorError::NodeNotStarted => "Node not started"@,
    }
}

impl NodeStatusMonitorError {
    /// The human-readable message of this error.
    pub fn message(&self) -> (r: String)
        ensures
            r@ == spec_error_message(*self),
    {
        match self {
            NodeStatusMonitorError::UnknownError(detail) => {
                let mut r = String::new();
                r.append("Unknown error: ");
                r.append(detail.as_str());
                proof {
                    assert(r@ =~= spec_error_message(*self));
                }
                r
            },
            NodeStatusMonitorError::NodeNotStarted => {
                let r = "Node not started".to_owned();
                proof {
                    assert(r@ =~= spec_error_message(*self));
                }
                r
            },
        }
    }
}

} // verus!
