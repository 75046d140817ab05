use node_monitor::mining_status::{signable_message, PollingGuard, StartPollingOutcome};

#[test]
fn first_start_spawns_the_loop() {
    let mut guard = PollingGuard::new();
    assert_eq!(guard.start_polling(), StartPollingOutcome::SpawnLoop);
    assert!(guard.is_started);
}

#[test]
fn second_start_is_a_no_op_success() {
    let mut guard = PollingGuard::new();
    assert_eq!(guard.start_polling(), StartPollingOutcome::SpawnLoop);
    assert_eq!(guard.start_polling(), StartPollingOutcome::AlreadyRunning);
    assert!(guard.is_started);
}

#[test]
fn stop_then_start_resumes_polling() {
    let mut guard = PollingGuard::new();
    assert_eq!(guard.start_polling(), StartPollingOutcome::SpawnLoop);
    guard.stop_polling();
    assert!(!guard.is_started);
    assert_eq!(guard.start_polling(), StartPollingOutcome::SpawnLoop);
}

#[test]
fn signable_message_joins_the_fields_with_commas() {
    assert_eq!(
        signable_message("1.2.3", "mainnet", "app-42", "user-7", true, 12345),
        "1.2.3,mainnet,app-42,user-7,true,12345"
    );
    assert_eq!(
        signable_message("0.1.0", "esmeralda", "a", "u", false, 0),
        "0.1.0,esmeralda,a,u,false,0"
    );
}
