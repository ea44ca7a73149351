use std::path::PathBuf;
use tsunagu::config::default_discovery_port;
use tsunagu::config::default_download_dir;
use tsunagu::config::default_transfer_port;
use tsunagu::config::CliConfig;
use tsunagu::config::Config;

#[test]
fn test_default_config() {
    let config = CliConfig::default();
    assert!(!config.device_name.is_empty());
    assert_eq!(config.discovery_port, 5353);
    assert_eq!(config.transfer_port, 5354);
    assert!(!config.download_dir.as_os_str().is_empty());
}

#[test]
fn default_values_are_exact() {
    assert_eq!(default_discovery_port(), 5353);
    assert_eq!(default_transfer_port(), 5354);
    assert_eq!(default_download_dir(), PathBuf::from("./downloads"));
}

#[test]
fn overrides_replace_defaults_one_by_one() {
    let config = CliConfig::with_overrides(
        Some("TestDevice".to_string()),
        Some(8000),
        Some(8001),
        Some(PathBuf::from("/tmp/downloads")),
    );
    assert_eq!(config.device_name, "TestDevice");
    assert_eq!(config.discovery_port, 8000);
    assert_eq!(config.transfer_port, 8001);
    assert_eq!(config.download_dir, PathBuf::from("/tmp/downloads"));

    let partial = CliConfig::with_overrides(None, None, Some(9000), None);
    assert_eq!(partial.device_name, CliConfig::default().device_name);
    assert_eq!(partial.discovery_port, 5353);
    assert_eq!(partial.transfer_port, 9000);
    assert_eq!(partial.download_dir, PathBuf::from("./downloads"));
}

#[test]
fn device_settings_are_a_plain_record() {
    let config = Config {
        device_name: "TestDevice".to_string(),
        save_directory: PathBuf::from("/tmp/downloads"),
        allow_auto_receive: false,
    };
    assert_eq!(config.device_name, "TestDevice");
    assert_eq!(config.save_directory, PathBuf::from("/tmp/downloads"));
    assert!(!config.allow_auto_receive);
}
