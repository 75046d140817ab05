use node_monitor::readiness::{ReadinessStatus, WireReadinessStatus, WireReadinessVariant};
use node_monitor::service::NodeAdapterService;
use node_monitor::status::{
    BaseNodeStatus, ChainMetadataView, NetworkStateView, NodeStatusMonitorError,
};

fn service() -> NodeAdapterService {
    NodeAdapterService::new("http://127.0.0.1:18142".to_string(), 3)
}

fn full_report() -> NetworkStateView {
    NetworkStateView {
        sha3x_estimated_hash_rate: 11,
        monero_randomx_estimated_hash_rate: 22,
        tari_randomx_estimated_hash_rate: 33,
        reward: 44,
        metadata: Some(ChainMetadataView { best_block_height: 555, timestamp: 666 }),
        initial_sync_achieved: true,
        num_connections: 7,
        readiness_status: Some(WireReadinessStatus {
            status: Some(WireReadinessVariant::State(100)),
            timestamp: 0,
        }),
    }
}

#[test]
fn connection_details_are_kept() {
    let s = service();
    assert_eq!(s.connection_address(), "http://127.0.0.1:18142");
    assert_eq!(s.required_sync_peers, 3);
}

#[test]
fn network_state_maps_onto_the_status_snapshot() {
    let status = service().get_network_state(&full_report());
    assert_eq!(status.sha_network_hashrate, 11);
    assert_eq!(status.monero_randomx_network_hashrate, 22);
    assert_eq!(status.tari_randomx_network_hashrate, 33);
    assert_eq!(status.block_reward, 44);
    assert_eq!(status.block_height, 555);
    assert_eq!(status.block_time, 666);
    assert!(status.is_synced);
    assert_eq!(status.num_connections, 7);
    assert_eq!(status.readiness_status, ReadinessStatus::State(100));
}

#[test]
fn missing_metadata_defaults_to_zero() {
    let report = NetworkStateView { metadata: None, ..full_report() };
    let status = service().get_network_state(&report);
    assert_eq!(status.block_height, 0);
    assert_eq!(status.block_time, 0);
}

#[test]
fn missing_readiness_defaults_to_not_ready() {
    let report = NetworkStateView { readiness_status: None, ..full_report() };
    let status = service().get_network_state(&report);
    assert_eq!(status.readiness_status, ReadinessStatus::State(0));
}

#[test]
fn historical_blocks_render_hashes_as_lowercase_hex() {
    let rendered = service().render_historical_blocks(&vec![
        (950, vec![0xde, 0xad]),
        (900, vec![0x00, 0x0f, 0xf0]),
    ]);
    assert_eq!(rendered, vec![(950, "dead".to_string()), (900, "000ff0".to_string())]);
}

#[test]
fn default_status_means_never_queried() {
    let status = BaseNodeStatus::default();
    assert_eq!(status.block_height, 0);
    assert_eq!(status.block_time, 0);
    assert_eq!(status.block_reward, 0);
    assert_eq!(status.num_connections, 0);
    assert!(!status.is_synced);
    assert_eq!(status.readiness_status, ReadinessStatus::State(0));
}

#[test]
fn error_messages() {
    assert_eq!(NodeStatusMonitorError::NodeNotStarted.message(), "Node not started");
    assert_eq!(
        NodeStatusMonitorError::UnknownError("connection reset".to_string()).message(),
        "Unknown error: connection reset"
    );
}
