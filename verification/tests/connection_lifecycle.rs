use std::time::{Duration, Instant};
use video_pipeline::rtsp_to_srt::{ConnectionLifecycle, ConnectionState};
use video_pipeline::time_span::TimeSpan;

#[test]
fn test_initial_state_is_idle() {
    let lifecycle = ConnectionLifecycle::new();
    assert_eq!(*lifecycle.current_state(), ConnectionState::Idle);
    assert_eq!(lifecycle.transition_count(), 0);
}

#[test]
fn test_transitions_are_tracked() {
    let mut lifecycle = ConnectionLifecycle::new();

    lifecycle.transition_to_connecting();
    lifecycle.transition_to_streaming();

    assert_eq!(lifecycle.transition_count(), 2);
    assert_eq!(*lifecycle.current_state(), ConnectionState::Streaming);
}

#[test]
fn test_uptime_tracking() {
    let mut lifecycle = ConnectionLifecycle::new();
    assert!(lifecycle.uptime().is_none());

    lifecycle.transition_to_streaming();
    let waited = Instant::now();
    while waited.elapsed() < Duration::from_millis(10) {
        std::hint::spin_loop();
    }

    let uptime = lifecycle.uptime().unwrap();
    assert!(uptime.as_millis() >= 10);
}

#[test]
fn test_last_transition() {
    let mut lifecycle = ConnectionLifecycle::new();
    lifecycle.transition_to_connecting();

    let last = lifecycle.last_transition().unwrap();
    assert_eq!(last.from, ConnectionState::Idle);
    assert_eq!(last.to, ConnectionState::Connecting);
}

#[test]
fn test_should_continue_retrying() {
    let mut lifecycle = ConnectionLifecycle::new();
    lifecycle.transition_to_reconnecting(3, Some("test".to_string()));

    // Should retry if under max
    assert!(lifecycle.should_continue_retrying(Some(5)));

    // Should not retry if at max
    assert!(!lifecycle.should_continue_retrying(Some(3)));

    // Should always retry with no max
    assert!(lifecycle.should_continue_retrying(None));
}

#[test]
fn default_lifecycle_is_a_new_one() {
    let lifecycle = ConnectionLifecycle::default();
    assert_eq!(*lifecycle.current_state(), ConnectionState::Idle);
    assert_eq!(lifecycle.transition_count(), 0);
    assert!(lifecycle.last_transition().is_none());
    assert!(lifecycle.uptime().is_none());
}

#[test]
fn no_retry_outside_reconnecting() {
    let mut lifecycle = ConnectionLifecycle::new();
    assert!(!lifecycle.should_continue_retrying(None));
    assert!(!lifecycle.should_continue_retrying(Some(5)));
    lifecycle.transition_to_connecting();
    assert!(!lifecycle.should_continue_retrying(None));
    lifecycle.transition_to_streaming();
    assert!(!lifecycle.should_continue_retrying(Some(5)));
    lifecycle.transition_to_failed(None);
    assert!(!lifecycle.should_continue_retrying(None));
    assert!(!lifecycle.should_continue_retrying(Some(u32::MAX)));
}

#[test]
fn retry_stops_once_the_attempts_reach_the_maximum() {
    let mut lifecycle = ConnectionLifecycle::new();
    lifecycle.transition_to_reconnecting(4, None);
    assert!(lifecycle.should_continue_retrying(Some(5)));
    lifecycle.transition_to_reconnecting(5, None);
    assert!(!lifecycle.should_continue_retrying(Some(5)));
    lifecycle.transition_to_reconnecting(6, None);
    assert!(!lifecycle.should_continue_retrying(Some(5)));
    assert!(!lifecycle.should_continue_retrying(Some(0)));
    assert!(lifecycle.should_continue_retrying(None));
}

#[test]
fn each_transition_starts_where_the_last_one_led() {
    let mut lifecycle = ConnectionLifecycle::new();
    lifecycle.transition_to_connecting();
    lifecycle.transition_to_reconnecting(1, Some("lost".to_string()));
    let last = lifecycle.last_transition().unwrap();
    assert_eq!(last.from, ConnectionState::Connecting);
    assert_eq!(last.to, ConnectionState::Reconnecting { attempt: 1 });
    assert_eq!(last.reason.as_deref(), Some("lost"));

    lifecycle.transition_to_failed(Some("gave up".to_string()));
    let last = lifecycle.last_transition().unwrap();
    assert_eq!(last.from, ConnectionState::Reconnecting { attempt: 1 });
    assert_eq!(last.to, ConnectionState::Failed);
    assert_eq!(last.reason.as_deref(), Some("gave up"));
    assert_eq!(*lifecycle.current_state(), ConnectionState::Failed);
    assert_eq!(lifecycle.transition_count(), 3);
}

#[test]
fn timestamps_never_go_back() {
    let mut lifecycle = ConnectionLifecycle::new();
    lifecycle.record_transition(ConnectionState::Connecting, None, TimeSpan::from_millis(50));
    assert_eq!(lifecycle.last_transition().unwrap().timestamp, TimeSpan::from_millis(50));
    // A reading that lies before the last change is held at that change.
    lifecycle.record_transition(ConnectionState::Streaming, None, TimeSpan::from_millis(20));
    assert_eq!(lifecycle.last_transition().unwrap().timestamp, TimeSpan::from_millis(50));
    lifecycle.record_transition(ConnectionState::Failed, None, TimeSpan::from_millis(70));
    assert_eq!(lifecycle.last_transition().unwrap().timestamp, TimeSpan::from_millis(70));

    let mut clocked = ConnectionLifecycle::new();
    clocked.transition_to_connecting();
    let first = clocked.last_transition().unwrap().timestamp;
    clocked.transition_to_streaming();
    let second = clocked.last_transition().unwrap().timestamp;
    assert!(second >= first);
}

#[test]
fn uptime_counts_from_the_first_entry_into_streaming() {
    let mut lifecycle = ConnectionLifecycle::new();
    assert_eq!(lifecycle.uptime_at(TimeSpan::from_secs(9)), None);
    lifecycle.record_transition(ConnectionState::Connecting, None, TimeSpan::from_secs(1));
    assert_eq!(lifecycle.uptime_at(TimeSpan::from_secs(9)), None);
    lifecycle.record_transition(ConnectionState::Streaming, None, TimeSpan::from_secs(2));
    assert_eq!(lifecycle.uptime_at(TimeSpan::from_secs(9)), Some(TimeSpan::from_secs(7)));
    // Leaving and entering again does not start the uptime anew.
    lifecycle.record_transition(
        ConnectionState::Reconnecting { attempt: 1 },
        Some("lost".to_string()),
        TimeSpan::from_secs(3),
    );
    lifecycle.record_transition(ConnectionState::Streaming, None, TimeSpan::from_secs(5));
    assert_eq!(lifecycle.uptime_at(TimeSpan::from_secs(9)), Some(TimeSpan::from_secs(7)));
    // A reading before the start gives the empty span.
    assert_eq!(lifecycle.uptime_at(TimeSpan::from_secs(1)), Some(TimeSpan::zero()));
}

#[test]
fn uptime_is_defined_after_streaming_and_never_decreases() {
    let mut lifecycle = ConnectionLifecycle::new();
    lifecycle.transition_to_connecting();
    assert!(lifecycle.uptime().is_none());
    lifecycle.transition_to_streaming();
    assert_eq!(lifecycle.transition_count(), 2);
    let mut last = lifecycle.uptime().unwrap();
    for _ in 0..100 {
        let polled = lifecycle.uptime().unwrap();
        assert!(polled >= last);
        last = polled;
    }
}
