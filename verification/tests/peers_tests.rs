use chrono::{Duration, Utc};
use node_monitor::peers::ConnectedPeerInfo;
use node_monitor::service::NodeAdapterService;

fn service() -> NodeAdapterService {
    NodeAdapterService::new("http://127.0.0.1:18142".to_string(), 3)
}

fn seen_seconds_ago(secs: i64) -> String {
    (Utc::now() - Duration::seconds(secs))
        .naive_utc()
        .format("%Y-%m-%d %H:%M:%S%.f")
        .to_string()
}

#[test]
fn recently_seen_peer_is_included_with_hex_address() {
    let now_secs = Utc::now().timestamp();
    let peers = vec![ConnectedPeerInfo {
        address: vec![0xab, 0x01],
        last_seen: seen_seconds_ago(0),
    }];
    assert_eq!(service().list_connected_peers(&peers, now_secs), vec!["ab01"]);
}

#[test]
fn sixty_one_seconds_ago_is_out_fifty_nine_is_in() {
    let now_secs = Utc::now().timestamp();
    let peers = vec![
        ConnectedPeerInfo { address: vec![0x01], last_seen: seen_seconds_ago(61) },
        ConnectedPeerInfo { address: vec![0x02], last_seen: seen_seconds_ago(59) },
    ];
    assert_eq!(service().list_connected_peers(&peers, now_secs), vec!["02"]);
}

#[test]
fn malformed_timestamp_excludes_the_peer_without_an_error() {
    let now_secs = Utc::now().timestamp();
    let peers = vec![
        ConnectedPeerInfo { address: vec![0x01], last_seen: "not a timestamp".to_string() },
        ConnectedPeerInfo { address: vec![0x02], last_seen: String::new() },
        ConnectedPeerInfo { address: vec![0x03], last_seen: seen_seconds_ago(1) },
    ];
    assert_eq!(service().list_connected_peers(&peers, now_secs), vec!["03"]);
}

#[test]
fn last_seen_in_the_future_counts_as_just_seen() {
    let now_secs = Utc::now().timestamp();
    let peers = vec![ConnectedPeerInfo {
        address: vec![0x7f],
        last_seen: seen_seconds_ago(-120),
    }];
    assert_eq!(service().list_connected_peers(&peers, now_secs), vec!["7f"]);
}

#[test]
fn report_order_is_kept() {
    let now_secs = Utc::now().timestamp();
    let peers = vec![
        ConnectedPeerInfo { address: vec![0x02], last_seen: seen_seconds_ago(2) },
        ConnectedPeerInfo { address: vec![0x01], last_seen: seen_seconds_ago(1) },
    ];
    assert_eq!(service().list_connected_peers(&peers, now_secs), vec!["02", "01"]);
}
