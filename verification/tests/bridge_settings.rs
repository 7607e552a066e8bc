use video_pipeline::rtsp_to_srt::{BridgeService, Config, ConfigError, DomainError, Multiplier};
use video_pipeline::time_span::TimeSpan;
use video_pipeline::user_port::PortError;

fn settings() -> Config {
    Config {
        rtsp_url: "rtsp://pipeline-rtsp:8554/cam1".to_string(),
        srt_url: "srt://mediamtx:9000?mode=caller&streamid=publish:cam1&latency=200".to_string(),
        metrics_port: 9002,
        reconnect_initial_delay: 1,
        reconnect_max_delay: 30,
        reconnect_multiplier: Multiplier::new(2, 1),
        verbose: false,
    }
}

#[test]
fn usual_settings_are_accepted_and_convert() {
    let config = settings();
    assert!(config.validate().is_ok());
    let bridge = config.to_bridge_config().unwrap();
    assert_eq!(bridge.rtsp_url(), "rtsp://pipeline-rtsp:8554/cam1");
    let policy = config.to_backoff_policy().unwrap();
    assert_eq!(policy.initial_delay(), TimeSpan::from_secs(1));
    assert_eq!(policy.max_delay(), TimeSpan::from_secs(30));
    assert_eq!(policy.multiplier(), Multiplier::new(2, 1));
    let service = BridgeService::new(policy);
    assert_eq!(service.current_backoff(), TimeSpan::from_secs(1));
}

#[test]
fn each_rule_refuses_with_its_own_error() {
    let mut config = settings();
    config.rtsp_url = "http://x".to_string();
    assert!(matches!(config.validate(), Err(ConfigError::RtspUrlScheme)));

    let mut config = settings();
    config.srt_url = "udp://x".to_string();
    assert!(matches!(config.validate(), Err(ConfigError::SrtUrlScheme)));

    let mut config = settings();
    config.metrics_port = 0;
    assert!(matches!(
        config.validate(),
        Err(ConfigError::Port(PortError::Zero { name })) if name == "metrics"
    ));

    let mut config = settings();
    config.metrics_port = 1023;
    assert!(matches!(
        config.validate(),
        Err(ConfigError::Port(PortError::Privileged { name, port: 1023 })) if name == "metrics"
    ));
    config.metrics_port = 1024;
    assert!(config.validate().is_ok());

    let mut config = settings();
    config.reconnect_multiplier = Multiplier::new(1, 1);
    assert!(matches!(config.validate(), Err(ConfigError::MultiplierTooSmall)));

    let mut config = settings();
    config.reconnect_initial_delay = 0;
    assert!(matches!(config.validate(), Err(ConfigError::InitialDelayZero)));

    let mut config = settings();
    config.reconnect_initial_delay = 31;
    assert!(matches!(
        config.validate(),
        Err(ConfigError::MaxDelayBelowInitial { max_delay: 30, initial_delay: 31 })
    ));
    config.reconnect_initial_delay = 30;
    assert!(config.validate().is_ok());
}

#[test]
fn first_broken_rule_is_the_one_reported() {
    let mut config = settings();
    config.rtsp_url = "x".to_string();
    config.srt_url = "y".to_string();
    config.metrics_port = 0;
    config.reconnect_multiplier = Multiplier::new(1, 2);
    config.reconnect_initial_delay = 0;
    assert!(matches!(config.validate(), Err(ConfigError::RtspUrlScheme)));
    config.rtsp_url = "rtsp://x".to_string();
    assert!(matches!(config.validate(), Err(ConfigError::SrtUrlScheme)));
    config.srt_url = "srt://y".to_string();
    assert!(matches!(config.validate(), Err(ConfigError::Port(_))));
    config.metrics_port = 9002;
    assert!(matches!(config.validate(), Err(ConfigError::MultiplierTooSmall)));
    config.reconnect_multiplier = Multiplier::new(3, 2);
    assert!(matches!(config.validate(), Err(ConfigError::InitialDelayZero)));
}

#[test]
fn settings_errors_in_words() {
    assert_eq!(ConfigError::RtspUrlScheme.message(), "RTSP URL must start with rtsp://");
    assert_eq!(ConfigError::SrtUrlScheme.message(), "SRT URL must start with srt://");
    assert_eq!(ConfigError::MultiplierTooSmall.message(), "Reconnect multiplier must be > 1.0");
    assert_eq!(
        ConfigError::InitialDelayZero.message(),
        "Initial reconnection delay cannot be 0"
    );
    assert_eq!(
        ConfigError::MaxDelayBelowInitial { max_delay: 5, initial_delay: 10 }.message(),
        "Maximum reconnection delay (5) cannot be less than initial delay (10)"
    );
    assert_eq!(
        ConfigError::Port(PortError::Zero { name: "metrics".to_string() }).message(),
        "Invalid metrics port: port cannot be 0"
    );
    assert_eq!(
        Config::validate_port(80, "metrics").unwrap_err().message(),
        "Invalid metrics port: 80 is a privileged port (< 1024). Use a port >= 1024"
    );
}

#[test]
fn conversions_refuse_what_the_domain_refuses() {
    let mut config = settings();
    config.srt_url = "udp://x".to_string();
    assert!(matches!(
        config.to_bridge_config(),
        Err(DomainError::InvalidSrtUrl(url)) if url == "udp://x"
    ));
    config.reconnect_multiplier = Multiplier::new(1, 1);
    assert!(matches!(
        config.to_backoff_policy(),
        Err(DomainError::InvalidBackoffMultiplier)
    ));
}
