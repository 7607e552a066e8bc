use std::io::Write;
use tempfile::NamedTempFile;
use video_pipeline::rtsp::{Config, ConfigError, MountPointError};
use video_pipeline::user_port::PortError;

fn create_test_config() -> Config {
    Config {
        video_path: "/src/main/resources/camera1.mp4".to_string(),
        rtsp_port: 8554,
        mount_point: "/cam1".to_string(),
        metrics_port: 9001,
        verbose: false,
    }
}

#[test]
fn test_config_validation() {
    let config = create_test_config();

    // This might fail if the video file doesn't exist where the tests run
    // That's okay - we're testing the validation logic
    let _ = config.validate();
}

#[test]
fn missing_video_is_refused_first() {
    let mut config = create_test_config();
    config.video_path = "/nonexistent/camera1.mp4".to_string();
    config.rtsp_port = 0;
    assert!(matches!(
        config.validate(),
        Err(ConfigError::VideoFileNotFound(path)) if path == "/nonexistent/camera1.mp4"
    ));
}

#[test]
fn settings_with_a_video_on_disk_are_accepted() {
    let mut video = NamedTempFile::new().unwrap();
    video.write_all(b"not really a video").unwrap();
    let mut config = create_test_config();
    config.video_path = video.path().to_str().unwrap().to_string();
    assert!(config.validate().is_ok());

    let directory = tempfile::tempdir().unwrap();
    config.video_path = directory.path().to_str().unwrap().to_string();
    assert!(matches!(config.validate(), Err(ConfigError::VideoPathNotFile(_))));
}

#[test]
fn rules_are_looked_at_in_order() {
    let mut config = create_test_config();
    config.rtsp_port = 80;
    config.metrics_port = 0;
    config.mount_point = "cam1".to_string();
    assert!(matches!(config.check(false, false), Err(ConfigError::VideoFileNotFound(_))));
    assert!(matches!(config.check(false, true), Err(ConfigError::VideoFileNotFound(_))));
    assert!(matches!(config.check(true, false), Err(ConfigError::VideoPathNotFile(_))));
    assert!(matches!(
        config.check(true, true),
        Err(ConfigError::Port(PortError::Privileged { name, port: 80 })) if name == "RTSP"
    ));
    config.rtsp_port = 8554;
    assert!(matches!(
        config.check(true, true),
        Err(ConfigError::Port(PortError::Zero { name })) if name == "metrics"
    ));
    config.metrics_port = 8554;
    assert!(matches!(config.check(true, true), Err(ConfigError::SamePorts)));
    config.metrics_port = 9001;
    assert!(matches!(
        config.check(true, true),
        Err(ConfigError::MountPoint(MountPointError::NotRooted(refused))) if refused == "cam1"
    ));
    config.mount_point = "/cam1".to_string();
    assert!(config.check(true, true).is_ok());
}

#[test]
fn mount_point_rules() {
    assert!(Config::validate_mount_point("/").is_ok());
    assert!(Config::validate_mount_point("/cam1").is_ok());
    assert!(Config::validate_mount_point("/a/b-c/d_e/Z9").is_ok());
    assert!(matches!(
        Config::validate_mount_point(""),
        Err(MountPointError::NotRooted(refused)) if refused.is_empty()
    ));
    assert!(matches!(
        Config::validate_mount_point("cam//1/"),
        Err(MountPointError::NotRooted(_))
    ));
    assert!(matches!(
        Config::validate_mount_point("/cam 1"),
        Err(MountPointError::InvalidCharacters(refused)) if refused == "/cam 1"
    ));
    assert!(matches!(
        Config::validate_mount_point("/caf\u{e9}"),
        Err(MountPointError::InvalidCharacters(_))
    ));
    assert!(matches!(
        Config::validate_mount_point("/cam.1//x/"),
        Err(MountPointError::InvalidCharacters(_))
    ));
    assert!(matches!(
        Config::validate_mount_point("/cam//1"),
        Err(MountPointError::DoubleSlash(refused)) if refused == "/cam//1"
    ));
    assert!(matches!(
        Config::validate_mount_point("//"),
        Err(MountPointError::DoubleSlash(_))
    ));
    assert!(matches!(
        Config::validate_mount_point("/cam1//"),
        Err(MountPointError::DoubleSlash(_))
    ));
    assert!(matches!(
        Config::validate_mount_point("/cam1/"),
        Err(MountPointError::TrailingSlash(refused)) if refused == "/cam1/"
    ));
}

#[test]
fn server_settings_errors_in_words() {
    assert_eq!(
        ConfigError::VideoFileNotFound("/app/resources/camera1.mp4".to_string()).message(),
        "Video file not found: \"/app/resources/camera1.mp4\""
    );
    assert_eq!(
        ConfigError::VideoPathNotFile("/tmp/a \"b\"".to_string()).message(),
        "Video path is not a file: \"/tmp/a \\\"b\\\"\""
    );
    assert_eq!(
        ConfigError::SamePorts.message(),
        "RTSP port and metrics port cannot be the same"
    );
    assert_eq!(
        ConfigError::Port(PortError::Zero { name: "RTSP".to_string() }).message(),
        "Invalid RTSP port: port cannot be 0"
    );
    assert_eq!(
        Config::validate_port(1023, "RTSP").unwrap_err().message(),
        "Invalid RTSP port: 1023 is a privileged port (< 1024). Use a port >= 1024"
    );
    assert_eq!(
        MountPointError::NotRooted("cam1".to_string()).message(),
        "Mount point must start with '/': cam1"
    );
    assert_eq!(
        ConfigError::MountPoint(MountPointError::InvalidCharacters("/c m".to_string())).message(),
        "Mount point contains invalid characters: /c m. Only alphanumeric, '/', '-', and '_' \
         are allowed"
    );
    assert_eq!(
        MountPointError::DoubleSlash("//".to_string()).message(),
        "Mount point cannot contain double slashes: //"
    );
    assert_eq!(
        MountPointError::TrailingSlash("/a/".to_string()).message(),
        "Mount point cannot end with '/': /a/"
    );
}
