use video_pipeline::rtsp_to_srt::ConnectionState;

#[test]
fn test_default_is_idle() {
    assert_eq!(ConnectionState::default(), ConnectionState::Idle);
}

#[test]
fn test_is_streaming() {
    assert!(!ConnectionState::Idle.is_streaming());
    assert!(!ConnectionState::Connecting.is_streaming());
    assert!(ConnectionState::Streaming.is_streaming());
    assert!(!ConnectionState::Reconnecting { attempt: 1 }.is_streaming());
    assert!(!ConnectionState::Failed.is_streaming());
}

#[test]
fn test_is_problematic() {
    assert!(!ConnectionState::Idle.is_problematic());
    assert!(!ConnectionState::Connecting.is_problematic());
    assert!(!ConnectionState::Streaming.is_problematic());
    assert!(ConnectionState::Reconnecting { attempt: 1 }.is_problematic());
    assert!(ConnectionState::Failed.is_problematic());
}

#[test]
fn test_as_metric() {
    assert_eq!(ConnectionState::Idle.as_metric() as f64, 0.0);
    assert_eq!(ConnectionState::Connecting.as_metric() as f64, 1.0);
    assert_eq!(ConnectionState::Streaming.as_metric() as f64, 2.0);
    assert_eq!(ConnectionState::Reconnecting { attempt: 5 }.as_metric() as f64, 3.0);
    assert_eq!(ConnectionState::Failed.as_metric() as f64, 4.0);
}

#[test]
fn states_in_words() {
    assert_eq!(ConnectionState::Idle.to_text(), "IDLE");
    assert_eq!(ConnectionState::Connecting.to_text(), "CONNECTING");
    assert_eq!(ConnectionState::Streaming.to_text(), "STREAMING");
    assert_eq!(
        ConnectionState::Reconnecting { attempt: 12 }.to_text(),
        "RECONNECTING (attempt 12)"
    );
    assert_eq!(
        ConnectionState::Reconnecting { attempt: u32::MAX }.to_text(),
        "RECONNECTING (attempt 4294967295)"
    );
    assert_eq!(ConnectionState::Reconnecting { attempt: 0 }.to_text(), "RECONNECTING (attempt 0)");
    assert_eq!(ConnectionState::Failed.to_text(), "FAILED");
}
