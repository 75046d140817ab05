//! Health classification of the monitored node.
//!
//! Each check classifies the node as Initializing, Healthy, Warning or
//! Unhealthy from the latest status snapshot, the process uptime and the
//! wall clock. The one piece of state kept across checks is the last
//! observed block timestamp, used to detect a stalled node. The remote
//! query, its timeout, the status broadcast and the recovery deletions
//! belong to the caller.

use crate::orphan::spec_saturating_sub;
use crate::readiness::{ReadinessStatus, STATE_READY};
use crate::status::BaseNodeStatus;
use crate::text::string_views;
use vstd::prelude::*;
use vstd::string::StringExecFns;

verus! {

/// Health of the node as classified by one check.
#[derive(Clone, Copy, Debug, PartialEq, Eq)]
pub enum HealthStatus {
    Initializing,
    Healthy,
    Warning,
    Unhealthy,
}

/// Whether the monitored node is a locally managed process or a remote one
/// whose data this process does not own.
#[derive(Clone, Copy, Debug, PartialEq, Eq)]
pub enum NodeType {
    Local,
    Remote,
}

/// The staleness window: an unchanged block timestamp counts as a stall only
/// once both the process uptime and the block's age exceed this many
/// seconds.
pub const STALL_WINDOW_SECS: u64 = 3600;

/// The classification of one successful status query.
pub open spec fn spec_classify_status(
    status: BaseNodeStatus,
    last_block_time: u64,
    uptime_secs: u64,
    now_secs: u64,
) -> HealthStatus {
    if status.readiness_status != ReadinessStatus::State(STATE_READY) {
        HealthStatus::Initializing
    } else if status.num_connections == 0 {
        HealthStatus::Warning
    } else if status.block_time == last_block_time && uptime_secs > STALL_WINDOW_SECS
        && spec_saturating_sub(now_secs, status.block_time) > STALL_WINDOW_SECS {
        HealthStatus::Unhealthy
    } else {
        HealthStatus::Healthy
    }
}

/// The stored block timestamp after one check: it moves to the reported
/// timestamp exactly when a ready, connected node reports a new one.
pub open spec fn spec_updated_block_time(status: BaseNodeStatus, last_block_time: u64) -> u64 {
    if status.readiness_status == ReadinessStatus::State(STATE_READY) && status.num_connections > 0
        && status.block_time != last_block_time {
        status.block_time
    } else {
        last_block_time
    }
}

/// The relative paths cleared when recovering a locally managed node, under
/// the node's base directory and with `/` separators: the peer database and
/// the embedded anonymity-network data of the active network, and the
/// top-level anonymity-network data directory.
pub open spec fn spec_recovery_paths(node_type: NodeType, network: Seq<char>) -> Seq<Seq<char>> {
    if node_type == NodeType::Remote {
        Seq::<Seq<char>>::empty()
    } else {
        seq![
            "node/"@ + network + "/peer_db"@,
            "node/"@ + network + "/libtor"@,
            "tor-data"@,
        ]
    }
}

/// The periodic health check's state: what kind of node is watched, and the
/// block timestamp last seen from it.
#[derive(Clone, Copy, Debug, PartialEq, Eq)]
pub struct NodeStatusMonitor {
    pub node_type: NodeType,
    pub last_block_time: u64,
}

impl NodeStatusMonitor {
    /// A monitor that has not yet observed a block timestamp.
    pub fn new(node_type: NodeType) -> (r: Self)
        ensures
            r.node_type == node_type,
            r.last_block_time == 0,
    {
        NodeStatusMonitor { node_type, last_block_time: 0 }
    }

    /// Classifies one successful status query: still initializing while the
    /// node is not ready; Warning with no active connections; Unhealthy when
    /// the block timestamp is unchanged, the process has been up for over an
    /// hour and the block is over an hour old; Healthy otherwise, recording
    /// a changed block timestamp.
    pub fn check_health(
        &mut self,
        status: &BaseNodeStatus,
        uptime_secs: u64,
        now_secs: u64,
    ) -> (r: HealthStatus)
        ensures
            r == spec_classify_status(*status, old(self).last_block_time, uptime_secs, now_secs),
            final(self).node_type == old(self).node_type,
            final(self).last_block_time == spec_updated_block_time(
                *status,
                old(self).last_block_time,
            ),
    {
        if status.readiness_status.is_initializing() {
            return HealthStatus::Initializing;
        }
        if status.num_connections == 0 {
            return HealthStatus::Warning;
        }
        if self.last_block_time == status.block_time {
            if uptime_secs > STALL_WINDOW_SECS && now_secs.saturating_sub(status.block_time)
                > STALL_WINDOW_SECS {
                return HealthStatus::Unhealthy;
            }
        } else {
            self.last_block_time = status.block_time;
        }
        HealthStatus::Healthy
    }

    /// Classifies a check whose status query timed out or failed: the
    /// fallback identity probe decides between a live-but-degraded Warning
    /// and Unhealthy.
    pub fn check_health_fallback(&self, identity_probe_ok: bool) -> (r: HealthStatus)
        ensures
            r == if identity_probe_ok {
                HealthStatus::Warning
            } else {
                HealthStatus::Unhealthy
            },
    {
        if identity_probe_ok {
            HealthStatus::Warning
        } else {
            HealthStatus::Unhealthy
        }
    }

    /// The directories to clear on sustained unhealthiness, relative to the
    /// node's base directory, given the active network's lowercase name.
    /// Recovery never touches a remote node's data, so the list is then
    /// empty.
    pub fn recovery_paths(&self, network: &str) -> (r: Vec<String>)
        ensures
            string_views(r@) == spec_recovery_paths(self.node_type, network@),
    {
        let mut r: Vec<String> = Vec::new();
        match self.node_type {
            NodeType::Remote => {},
            NodeType::Local => {
                let mut peer_db = String::new();
                peer_db.append("node/");
                peer_db.append(network);
                peer_db.append("/peer_db");
                r.push(peer_db);
                let mut libtor = String::new();
                libtor.append("node/");
                libtor.append(network);
                libtor.append("/libtor");
                r.push(libtor);
                r.push("tor-data".to_owned());
            },
        }
        proof {
            assert(string_views(r@) =~= spec_recovery_paths(self.node_type, network@));
        }
        r
    }
}

} // verus!
