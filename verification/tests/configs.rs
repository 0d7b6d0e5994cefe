use remotefs::config::{
    AccessConfig, AgentConfig, ConfigError, LoggingConfig, MessageLimits, NetworkConfig,
    PerformanceConfig, SecurityConfig, merge_configs, validate_config,
};
use remotefs::locations::{
    agent_config_path, client_config_path, config_dir, get_default_config_path,
};
use remotefs::macoscfg::MacOSConfig;

fn sample_agent_config() -> AgentConfig {
    AgentConfig {
        agent_id: "agent-1".to_string(),
        relay_url: "wss://relay.example:8080/ws".to_string(),
        access: AccessConfig {
            allowed_paths: vec!["/tmp".to_string()],
            read_only_paths: vec![],
            denied_paths: vec!["/etc".to_string()],
            max_file_size: 1024,
            follow_symlinks: false,
            allowed_extensions: vec![],
            denied_extensions: vec![],
        },
        security: SecurityConfig {
            key_file: "/k".to_string(),
            cert_file: "/c".to_string(),
            enable_tls: true,
            verify_certs: true,
            session_timeout: 3600,
            enable_auth: true,
            allowed_clients: vec![],
        },
        network: NetworkConfig::default(),
        logging: LoggingConfig::default(),
        performance: PerformanceConfig {
            worker_threads: 2,
            io_buffer_size: 4096,
            async_io: true,
            fs_cache_size: 16,
            enable_prefetch: false,
            prefetch_window: 4,
        },
    }
}

#[test]
fn valid_config_passes() {
    let c = sample_agent_config();
    assert!(validate_config(&c).is_ok());
}

#[test]
fn empty_agent_id_rejected() {
    let mut c = sample_agent_config();
    c.agent_id = String::new();
    assert_eq!(validate_config(&c), Err(ConfigError::EmptyAgentId));
}

#[test]
fn bad_relay_scheme_rejected() {
    let mut c = sample_agent_config();
    c.relay_url = "http://relay".to_string();
    assert_eq!(validate_config(&c), Err(ConfigError::BadRelayScheme));
}

#[test]
fn missing_allowed_path_rejected() {
    let mut c = sample_agent_config();
    c.access.allowed_paths = vec!["/no/such/path/for/this/test".to_string()];
    assert_eq!(validate_config(&c), Err(ConfigError::MissingAllowedPath));
}

#[test]
fn zero_settings_rejected() {
    let mut c = sample_agent_config();
    c.access.max_file_size = 0;
    assert_eq!(validate_config(&c), Err(ConfigError::ZeroMaxFileSize));

    let mut c = sample_agent_config();
    c.performance.worker_threads = 0;
    assert_eq!(validate_config(&c), Err(ConfigError::ZeroWorkerThreads));

    let mut c = sample_agent_config();
    c.logging.level = "chatty".to_string();
    assert_eq!(validate_config(&c), Err(ConfigError::BadLogLevel));
}

#[test]
fn merge_prefers_overlay_values() {
    let base = sample_agent_config();
    let mut overlay = sample_agent_config();
    overlay.agent_id = "agent-2".to_string();
    overlay.relay_url = String::new();
    overlay.access.allowed_paths = vec![];
    overlay.performance.worker_threads = 0;
    let merged = merge_configs(&base, &overlay);
    assert_eq!(merged.agent_id, "agent-2");
    assert_eq!(merged.relay_url, base.relay_url);
    assert_eq!(merged.access.allowed_paths, base.access.allowed_paths);
    assert_eq!(merged.performance.worker_threads, base.performance.worker_threads);
    assert_eq!(merged.network.connection_timeout, overlay.network.connection_timeout);
}

#[test]
fn default_paths_lie_in_config_dir() {
    let dir = config_dir();
    assert!(dir.ends_with("/remotefs"));
    assert!(client_config_path().starts_with(&dir));
    assert!(agent_config_path().starts_with(&dir));
    assert!(client_config_path().ends_with("/client.toml"));
    assert!(agent_config_path().ends_with("/agent.toml"));
    assert!(get_default_config_path().ends_with("/.remotefs/config.toml"));
}

#[test]
fn test_default_config() {
    let config = MacOSConfig::default();
    assert_eq!(config.host, "127.0.0.1");
    assert_eq!(config.port, 2049);
    assert!(!config.agents.is_empty());
    assert!(config.validate().is_ok());
}

#[test]
fn config_test_config_validation() {
    let config = MacOSConfig::default();
    assert!(config.validate().is_ok());

    let mut invalid_config = MacOSConfig::default();
    invalid_config.agents.clear();
    assert!(invalid_config.validate().is_err());

    let mut invalid_config = MacOSConfig::default();
    invalid_config.port = 0;
    assert!(invalid_config.validate().is_err());

    let mut invalid_config = MacOSConfig::default();
    invalid_config.agents = vec!["http://invalid".to_string()];
    assert!(invalid_config.validate().is_err());
}

#[test]
fn config_test_default_mount_options() {
    let options = remotefs::fusecfg::MountOptions::default();
    assert_eq!(options.fsname, Some("remotefs".to_string()));
    assert_eq!(options.subtype, Some("remotefs".to_string()));
    assert!(options.auto_cache);
    assert!(options.auto_unmount);
    assert!(!options.read_only);
}

#[test]
fn mount_point_takes_read_only_from_options() {
    let mut options = remotefs::fusecfg::MountOptions::default();
    options.read_only = true;
    let mp = remotefs::fusecfg::MountPoint::new("/mnt/here", "/remote/there", options);
    assert_eq!(mp.mount_path, "/mnt/here");
    assert_eq!(mp.remote_path, "/remote/there");
    assert!(mp.read_only);
}
