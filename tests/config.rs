use chat_agents::agent::DelayRange;
use chat_agents::config::{Config, FileConfigManager};
use chat_agents::error::ScrapingError;
use std::time::Duration;

#[test]
fn test_size_format_validation() {
    assert!(FileConfigManager::is_valid_size_format("100MB"));
    assert!(FileConfigManager::is_valid_size_format("1GB"));
    assert!(FileConfigManager::is_valid_size_format("500kb"));
    assert!(!FileConfigManager::is_valid_size_format("invalid"));
    assert!(!FileConfigManager::is_valid_size_format("100"));
}

#[test]
fn test_time_format_validation() {
    assert!(FileConfigManager::is_valid_time_format("1h"));
    assert!(FileConfigManager::is_valid_time_format("30m"));
    assert!(FileConfigManager::is_valid_time_format("1d"));
    assert!(!FileConfigManager::is_valid_time_format("invalid"));
    assert!(!FileConfigManager::is_valid_time_format("100"));
}

#[test]
fn test_parse_size_to_bytes() {
    assert_eq!(FileConfigManager::parse_size_to_bytes("100MB").unwrap(), 100 * 1024 * 1024);
    assert_eq!(FileConfigManager::parse_size_to_bytes("1GB").unwrap(), 1024 * 1024 * 1024);
    assert_eq!(FileConfigManager::parse_size_to_bytes("500KB").unwrap(), 500 * 1024);
    assert!(FileConfigManager::parse_size_to_bytes("invalid").is_err());
}

#[test]
fn test_parse_time_to_duration() {
    assert_eq!(Duration::from_secs(FileConfigManager::parse_time_to_duration("1h").unwrap()), Duration::from_secs(3600));
    assert_eq!(Duration::from_secs(FileConfigManager::parse_time_to_duration("30m").unwrap()), Duration::from_secs(1800));
    assert_eq!(Duration::from_secs(FileConfigManager::parse_time_to_duration("1d").unwrap()), Duration::from_secs(86400));
    assert!(FileConfigManager::parse_time_to_duration("invalid").is_err());
}

#[test]
fn mod_test_config_validation() {
    let manager = FileConfigManager::new("test.toml".to_string());

    let valid_config = Config::default();
    assert!(manager.validate_config(&valid_config).is_ok());

    let mut invalid_config = Config::default();
    invalid_config.streamers.clear();
    assert!(manager.validate_config(&invalid_config).is_err());

    let mut invalid_config = Config::default();
    invalid_config.agents.max_concurrent = 0;
    assert!(manager.validate_config(&invalid_config).is_err());

    let mut invalid_config = Config::default();
    invalid_config.agents.delay_range = DelayRange { min_ms: 5000, max_ms: 1000 };
    assert!(manager.validate_config(&invalid_config).is_err());
}

#[test]
fn test_orchestrator_creation() {
    let config = Config::default();
    assert_eq!(config.agents.max_concurrent, 5);
    assert_eq!(config.streamers, vec!["shroud", "ninja"]);
}

#[test]
fn size_units_and_signs() {
    assert_eq!(FileConfigManager::parse_size_to_bytes("7B").unwrap(), 7);
    assert_eq!(FileConfigManager::parse_size_to_bytes("2tb").unwrap(), 2 * 1024u64.pow(4));
    assert_eq!(FileConfigManager::parse_size_to_bytes("+3kB").unwrap(), 3 * 1024);
    assert!(FileConfigManager::parse_size_to_bytes("KB").is_err());
    assert!(FileConfigManager::parse_size_to_bytes("-1MB").is_err());
    assert!(FileConfigManager::parse_size_to_bytes("1.5GB").is_err());
    // does not fit in 64 bits once multiplied
    assert!(matches!(FileConfigManager::parse_size_to_bytes("18446744073709551615KB"), Err(ScrapingError::ConfigError(_))));
    assert!(FileConfigManager::parse_size_to_bytes("18446744073709551616B").is_err());
    assert!(FileConfigManager::is_valid_size_format("18446744073709551615TB"));
}

#[test]
fn time_units() {
    assert_eq!(FileConfigManager::parse_time_to_duration("45s").unwrap(), 45);
    assert_eq!(FileConfigManager::parse_time_to_duration("2H").unwrap(), 7200);
    assert!(FileConfigManager::parse_time_to_duration("h").is_err());
    assert!(FileConfigManager::parse_time_to_duration("5w").is_err());
    assert!(!FileConfigManager::is_valid_time_format(""));
}

#[test]
fn validation_rules() {
    let manager = FileConfigManager::new("test.toml".to_string());
    let check = |f: &dyn Fn(&mut Config)| {
        let mut c = Config::default();
        f(&mut c);
        manager.validate_config(&c)
    };
    assert!(check(&|c| c.streamers.push("  ".to_string())).is_err());
    assert!(check(&|c| c.streamers.push("two words".to_string())).is_err());
    assert!(check(&|c| c.streamers.push("a".repeat(26))).is_err());
    assert!(check(&|c| c.streamers.push("a".repeat(25))).is_ok());
    assert!(check(&|c| c.agents.max_concurrent = 51).is_err());
    assert!(check(&|c| c.agents.max_concurrent = 50).is_ok());
    assert!(check(&|c| c.agents.retry_attempts = 11).is_err());
    assert!(check(&|c| c.agents.delay_range = DelayRange { min_ms: 10, max_ms: 60001 }).is_err());
    assert!(check(&|c| c.agents.proxy_list = Some(vec!["host:80".to_string(), "nohost".to_string()])).is_err());
    assert!(check(&|c| c.agents.proxy_list = Some(vec!["host:80".to_string()])).is_ok());
    assert!(check(&|c| c.output.format = "xml".to_string()).is_err());
    assert!(check(&|c| c.output.format = "csv".to_string()).is_ok());
    assert!(check(&|c| c.output.rotation_size = "100".to_string()).is_err());
    assert!(check(&|c| c.output.rotation_time = "1y".to_string()).is_err());
    assert!(check(&|c| c.monitoring.api_port = 80).is_err());
    assert!(check(&|c| c.monitoring.webhook_url = Some("ftp://x".to_string())).is_err());
    assert!(check(&|c| c.monitoring.webhook_url = Some("https://x".to_string())).is_ok());
    assert!(matches!(check(&|c| c.monitoring.api_port = 80), Err(ScrapingError::ConfigError(_))));
}
