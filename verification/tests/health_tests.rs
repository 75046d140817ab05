use node_monitor::health::{HealthStatus, NodeStatusMonitor, NodeType};
use node_monitor::readiness::{MigrationProgress, ReadinessStatus};
use node_monitor::status::BaseNodeStatus;

fn ready_status(block_time: u64, num_connections: u64) -> BaseNodeStatus {
    BaseNodeStatus {
        readiness_status: ReadinessStatus::State(100),
        block_time,
        num_connections,
        ..BaseNodeStatus::default()
    }
}

#[test]
fn unready_node_is_initializing() {
    let mut monitor = NodeStatusMonitor::new(NodeType::Local);
    let status = BaseNodeStatus {
        readiness_status: ReadinessStatus::State(1),
        num_connections: 5,
        ..BaseNodeStatus::default()
    };
    assert_eq!(monitor.check_health(&status, 10_000, 10_000), HealthStatus::Initializing);

    let migrating = BaseNodeStatus {
        readiness_status: ReadinessStatus::Migration(MigrationProgress {
            current_block: 1,
            total_blocks: 2,
            progress_tenths: 500,
            current_db_version: 1,
            target_db_version: 2,
        }),
        num_connections: 5,
        ..BaseNodeStatus::default()
    };
    assert_eq!(monitor.check_health(&migrating, 10_000, 10_000), HealthStatus::Initializing);
}

#[test]
fn no_connections_is_a_warning() {
    let mut monitor = NodeStatusMonitor::new(NodeType::Local);
    assert_eq!(monitor.check_health(&ready_status(1000, 0), 10_000, 10_000), HealthStatus::Warning);
}

#[test]
fn unchanged_old_block_time_after_an_hour_up_is_unhealthy() {
    let block_time: u64 = 1_000_000;
    let mut monitor = NodeStatusMonitor::new(NodeType::Local);
    // First check records the block time and is healthy.
    assert_eq!(
        monitor.check_health(&ready_status(block_time, 3), 100, block_time + 100),
        HealthStatus::Healthy
    );
    assert_eq!(monitor.last_block_time, block_time);
    // Same block time, uptime over an hour, block over an hour old: stalled.
    assert_eq!(
        monitor.check_health(&ready_status(block_time, 3), 3601, block_time + 3601),
        HealthStatus::Unhealthy
    );
    assert_eq!(monitor.last_block_time, block_time);
}

#[test]
fn unchanged_block_time_within_an_hour_is_healthy() {
    let block_time: u64 = 1_000_000;
    let mut monitor = NodeStatusMonitor::new(NodeType::Local);
    monitor.check_health(&ready_status(block_time, 3), 100, block_time + 100);
    // Uptime too short.
    assert_eq!(
        monitor.check_health(&ready_status(block_time, 3), 3600, block_time + 7200),
        HealthStatus::Healthy
    );
    // Block recent enough.
    assert_eq!(
        monitor.check_health(&ready_status(block_time, 3), 7200, block_time + 3600),
        HealthStatus::Healthy
    );
}

#[test]
fn changed_block_time_is_healthy_and_recorded_regardless_of_uptime() {
    let mut monitor = NodeStatusMonitor::new(NodeType::Local);
    monitor.check_health(&ready_status(1_000_000, 3), 100, 1_000_100);
    assert_eq!(
        monitor.check_health(&ready_status(1_000_600, 3), 3601, 1_005_000),
        HealthStatus::Healthy
    );
    assert_eq!(monitor.last_block_time, 1_000_600);
}

#[test]
fn failed_query_falls_back_to_the_identity_probe() {
    let monitor = NodeStatusMonitor::new(NodeType::Local);
    assert_eq!(monitor.check_health_fallback(true), HealthStatus::Warning);
    assert_eq!(monitor.check_health_fallback(false), HealthStatus::Unhealthy);
}

#[test]
fn recovery_clears_three_directories_for_a_local_node() {
    let monitor = NodeStatusMonitor::new(NodeType::Local);
    assert_eq!(
        monitor.recovery_paths("mainnet"),
        vec!["node/mainnet/peer_db", "node/mainnet/libtor", "tor-data"]
    );
}

#[test]
fn recovery_never_touches_a_remote_node() {
    let monitor = NodeStatusMonitor::new(NodeType::Remote);
    assert_eq!(monitor.recovery_paths("mainnet"), Vec::<String>::new());
}
