use node_monitor::idle::{
    CurrentTimeoutDurationEventPayload, UserActivityEvent, UserActivityEventPayload, UserListener,
};

#[test]
fn idle_fires_once_the_timeout_accumulates() {
    let mut listener = UserListener::new();
    listener.start_listening(3, (5, 5));
    let t1 = listener.observe_mouse((5, 5));
    assert_eq!(t1.event, None);
    assert_eq!(t1.remaining_secs, 2);
    let t2 = listener.observe_mouse((5, 5));
    assert_eq!(t2.event, None);
    assert_eq!(t2.remaining_secs, 1);
    let t3 = listener.observe_mouse((5, 5));
    assert_eq!(t3.event, Some(UserActivityEvent::Idle));
    assert_eq!(t3.remaining_secs, 0);
    assert!(listener.is_mining_initialized);
    // Staying idle fires nothing further.
    let t4 = listener.observe_mouse((5, 5));
    assert_eq!(t4.event, None);
}

#[test]
fn a_move_resets_the_count_and_wakes_the_user() {
    let mut listener = UserListener::new();
    listener.start_listening(2, (0, 0));
    listener.observe_mouse((0, 0));
    let idle = listener.observe_mouse((0, 0));
    assert_eq!(idle.event, Some(UserActivityEvent::Idle));
    let woke = listener.observe_mouse((10, 20));
    assert_eq!(woke.event, Some(UserActivityEvent::Active));
    assert_eq!(woke.remaining_secs, 2);
    assert!(!listener.is_mining_initialized);
    assert_eq!(listener.last_mouse_coords, (10, 20));
}

#[test]
fn a_move_before_the_timeout_fires_nothing() {
    let mut listener = UserListener::new();
    listener.start_listening(3, (0, 0));
    listener.observe_mouse((0, 0));
    let t = listener.observe_mouse((1, 0));
    assert_eq!(t.event, None);
    assert_eq!(t.remaining_secs, 3);
}

#[test]
fn cancellation_reports_whether_active_is_owed() {
    let mut listener = UserListener::new();
    listener.start_listening(1, (0, 0));
    listener.observe_mouse((0, 0));
    assert!(listener.is_mining_initialized);
    assert!(listener.on_cancelled());
    assert!(!listener.is_mining_initialized);
    assert!(!listener.on_cancelled());
}

#[test]
fn stop_listening_clears_the_flag() {
    let mut listener = UserListener::new();
    listener.start_listening(1, (0, 0));
    assert!(listener.is_listening);
    listener.stop_listening();
    assert!(!listener.is_listening);
}

#[test]
fn event_payloads_carry_the_event_names() {
    assert_eq!(UserActivityEventPayload::user_idle().event_type, "user_idle");
    assert_eq!(UserActivityEventPayload::user_active().event_type, "user_active");
    assert_eq!(
        UserActivityEventPayload::for_event(UserActivityEvent::Idle).event_type,
        "user_idle"
    );
    assert_eq!(
        UserActivityEventPayload::for_event(UserActivityEvent::Active).event_type,
        "user_active"
    );
    let payload = CurrentTimeoutDurationEventPayload::new(7);
    assert_eq!(payload.event_type, "current_timeout_duration");
    assert_eq!(payload.duration, 7);
}
