use video_pipeline::rtsp_to_srt::{BridgeConfig, DomainError};

#[test]
fn test_valid_config() {
    let result = BridgeConfig::new(
        "rtsp://localhost:8554/cam1".to_string(),
        "srt://localhost:9000".to_string(),
    );
    assert!(result.is_ok());
}

#[test]
fn test_rejects_invalid_rtsp_url() {
    let result = BridgeConfig::new(
        "http://localhost:8554/cam1".to_string(),
        "srt://localhost:9000".to_string(),
    );
    assert!(result.is_err());
}

#[test]
fn test_rejects_invalid_srt_url() {
    let result = BridgeConfig::new(
        "rtsp://localhost:8554/cam1".to_string(),
        "tcp://localhost:9000".to_string(),
    );
    assert!(result.is_err());
}

#[test]
fn accepted_config_keeps_both_urls() {
    let config = BridgeConfig::new(
        "rtsp://localhost:8554/cam1".to_string(),
        "srt://localhost:9000".to_string(),
    )
    .unwrap();
    assert_eq!(config.rtsp_url(), "rtsp://localhost:8554/cam1");
    assert_eq!(config.srt_url(), "srt://localhost:9000");
    let copy = config.clone();
    assert_eq!(copy, config);
}

#[test]
fn refused_url_comes_back_in_the_error() {
    let result = BridgeConfig::new("http://a".to_string(), "tcp://b".to_string());
    // The source is looked at first.
    assert!(matches!(result, Err(DomainError::InvalidRtspUrl(url)) if url == "http://a"));
    let result = BridgeConfig::new("rtsp://a".to_string(), "tcp://b".to_string());
    assert!(matches!(result, Err(DomainError::InvalidSrtUrl(url)) if url == "tcp://b"));
}

#[test]
fn scheme_must_stand_at_the_start_and_in_full() {
    assert!(BridgeConfig::validate_rtsp_url("rtsp://").is_ok());
    assert!(BridgeConfig::validate_rtsp_url("rtsp:/").is_err());
    assert!(BridgeConfig::validate_rtsp_url("").is_err());
    assert!(BridgeConfig::validate_rtsp_url(" rtsp://x").is_err());
    assert!(BridgeConfig::validate_rtsp_url("RTSP://x").is_err());
    assert!(BridgeConfig::validate_srt_url("srt://").is_ok());
    assert!(BridgeConfig::validate_srt_url("srt:/x").is_err());
    assert!(BridgeConfig::validate_srt_url("xsrt://").is_err());
    assert!(BridgeConfig::validate_srt_url("rtsp://x").is_err());
}
