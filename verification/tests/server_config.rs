use video_pipeline::rtsp::{DomainError, ServerConfig};

#[test]
fn test_rejects_zero_port() {
    let result = ServerConfig::new(0, "/cam1".to_string());
    assert!(result.is_err());
    assert!(matches!(result.unwrap_err(), DomainError::InvalidPort));
}

#[test]
fn test_rejects_invalid_mount_point() {
    let result = ServerConfig::new(8554, "cam1".to_string());
    assert!(result.is_err());
    assert!(matches!(
        result.unwrap_err(),
        DomainError::InvalidMountPoint(_)
    ));
}

#[test]
fn test_rejects_long_mount_point() {
    let long_mount = format!("/{}", "a".repeat(100));
    let result = ServerConfig::new(8554, long_mount);
    assert!(result.is_err());
    assert!(matches!(result.unwrap_err(), DomainError::MountPointTooLong));
}

#[test]
fn test_accepts_valid_config() {
    let result = ServerConfig::new(8554, "/cam1".to_string());
    assert!(result.is_ok());

    let config = result.unwrap();
    assert_eq!(config.port(), 8554);
    assert_eq!(config.mount_point(), "/cam1");
    assert!(config.looping_enabled());
}

#[test]
fn test_with_looping_disabled() {
    let config = ServerConfig::new(8554, "/cam1".to_string())
        .unwrap()
        .with_looping(false);

    assert!(!config.looping_enabled());
}

#[test]
fn mount_point_of_a_hundred_bytes_is_the_longest() {
    let longest = format!("/{}", "a".repeat(99));
    assert_eq!(longest.len(), 100);
    assert!(ServerConfig::new(8554, longest).is_ok());
    // The limit counts bytes: fifty two-byte letters after the slash are too many.
    let wide = format!("/{}", "é".repeat(50));
    assert_eq!(wide.chars().count(), 51);
    assert!(matches!(ServerConfig::new(8554, wide), Err(DomainError::MountPointTooLong)));
}

#[test]
fn port_is_looked_at_before_the_mount_point() {
    assert!(matches!(ServerConfig::new(0, "cam1".to_string()), Err(DomainError::InvalidPort)));
    assert!(matches!(
        ServerConfig::new(1, "".to_string()),
        Err(DomainError::InvalidMountPoint(refused)) if refused.is_empty()
    ));
    assert!(matches!(
        ServerConfig::new(1, "cam/1".to_string()),
        Err(DomainError::InvalidMountPoint(refused)) if refused == "cam/1"
    ));
    // A mount point without the slash is refused for that, however long it is.
    assert!(matches!(
        ServerConfig::new(1, "a".repeat(200)),
        Err(DomainError::InvalidMountPoint(_))
    ));
    assert!(ServerConfig::validate_port(65535).is_ok());
    assert!(ServerConfig::validate_mount_point("/").is_ok());
}

#[test]
fn looping_changes_nothing_else() {
    let config = ServerConfig::new(8554, "/cam1".to_string()).unwrap();
    let copy = config.clone();
    assert_eq!(copy, config);
    let quiet = config.with_looping(false);
    assert_eq!(quiet.port(), 8554);
    assert_eq!(quiet.mount_point(), "/cam1");
    assert!(quiet.with_looping(true).looping_enabled());
}
