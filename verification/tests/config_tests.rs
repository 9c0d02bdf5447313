//! Configuration defaults, validation, environment overrides and the
//! command-line fold.

use info_display::cli::CliParser;
use info_display::config::{AppConfig, ConfigError, EnvOverrides, MultiplexerConfig};
use info_display::errors::{AppError, DisplayErrorExt};

fn args(words: &[&str]) -> Vec<String> {
    words.iter().map(|w| w.to_string()).collect()
}

#[test]
fn test_default_config() {
    let config = AppConfig::default();
    assert_eq!(config.interval_seconds, 5);
    assert_eq!(config.enabled_screens, vec!["overview"]);
    assert!(!config.multiplexer.enabled);
}

#[test]
fn test_add_screen_replaces_overview() {
    let mut config = AppConfig::default();
    config.add_screen("network");
    assert_eq!(config.enabled_screens, vec!["network"]);

    config.add_screen("system");
    assert_eq!(config.enabled_screens, vec!["network", "system"]);
}

#[test]
fn test_add_screen_ignores_duplicates() {
    let mut config = AppConfig::default();
    config.add_screen("network");
    config.add_screen("network");
    assert_eq!(config.enabled_screens, vec!["network"]);
}

#[test]
fn test_validate_valid_config() {
    let config = AppConfig::default();
    assert!(config.validate().is_ok());
}

#[test]
fn test_validate_invalid_screen() {
    let mut config = AppConfig::default();
    config.enabled_screens = vec!["invalid".to_string()];
    assert!(config.validate().is_err());
}

#[test]
fn test_validate_invalid_channel() {
    let mut config = AppConfig::default();
    config.multiplexer.channel = 8;
    assert!(config.validate().is_err());
}

#[test]
fn test_validate_zero_interval() {
    let mut config = AppConfig::default();
    config.interval_seconds = 0;
    assert!(matches!(config.validate(), Err(ConfigError::InvalidInterval)));
}

#[test]
fn test_validate_zero_duration() {
    let mut config = AppConfig::default();
    config.screen_duration_secs = 0;
    assert!(matches!(config.validate(), Err(ConfigError::InvalidScreenDuration)));
}

#[test]
fn test_validate_empty_screens() {
    let mut config = AppConfig::default();
    config.enabled_screens = Vec::new();
    assert!(matches!(config.validate(), Err(ConfigError::NoScreensEnabled)));
}

#[test]
fn test_multiplexer_default() {
    let mux = MultiplexerConfig::default();
    assert!(!mux.enabled);
    assert_eq!(mux.channel, 0);
    assert_eq!(mux.address, 0x70);
}

#[test]
fn test_set_multiplexer_channel() {
    let mut config = AppConfig::default();
    assert!(config.set_multiplexer_channel(5).is_ok());
    assert_eq!(config.multiplexer.channel, 5);
    assert!(config.multiplexer.enabled);
    assert!(matches!(
        config.set_multiplexer_channel(8),
        Err(ConfigError::InvalidMultiplexerChannel(8))
    ));
    assert_eq!(config.multiplexer.channel, 5);
}

#[test]
fn test_enabled_screens_as_str_refs() {
    let mut config = AppConfig::default();
    config.add_screen("network");
    config.add_screen("gpio");
    let refs = config.enabled_screens_as_str_refs();
    assert_eq!(refs, vec!["network", "gpio"]);
}

#[test]
fn test_env_var_interval() {
    let overrides = EnvOverrides {
        interval: Some("10".to_string()),
        ..EnvOverrides::default()
    };
    let config = AppConfig::from_env(&overrides);
    assert_eq!(config.interval_seconds, 10);
}

#[test]
fn test_env_var_interval_rejects_zero_and_junk() {
    let overrides = EnvOverrides {
        interval: Some("0".to_string()),
        screen_duration: Some("soon".to_string()),
        ..EnvOverrides::default()
    };
    let config = AppConfig::from_env(&overrides);
    assert_eq!(config.interval_seconds, 5);
    assert_eq!(config.screen_duration_secs, 10);
}

#[test]
fn test_env_var_screens() {
    let overrides = EnvOverrides {
        screens: Some("network,system,storage".to_string()),
        ..EnvOverrides::default()
    };
    let config = AppConfig::from_env(&overrides);
    assert_eq!(config.enabled_screens, vec!["network", "system", "storage"]);
}

#[test]
fn test_env_var_screens_trims_and_filters() {
    let overrides = EnvOverrides {
        screens: Some(" network , bogus ,, gpio ".to_string()),
        ..EnvOverrides::default()
    };
    let config = AppConfig::from_env(&overrides);
    assert_eq!(config.enabled_screens, vec!["network", "gpio"]);
}

#[test]
fn test_env_var_daemon_mode() {
    let overrides = EnvOverrides {
        daemon: Some("true".to_string()),
        ..EnvOverrides::default()
    };
    let config = AppConfig::from_env(&overrides);
    assert!(config.daemon_mode);
}

#[test]
fn test_env_var_multiplexer() {
    let overrides = EnvOverrides {
        mux_enabled: Some("true".to_string()),
        mux_channel: Some("3".to_string()),
        mux_address: Some("0x71".to_string()),
        ..EnvOverrides::default()
    };
    let config = AppConfig::from_env(&overrides);
    assert!(config.multiplexer.enabled);
    assert_eq!(config.multiplexer.channel, 3);
    assert_eq!(config.multiplexer.address, 0x71);
}

#[test]
fn test_env_var_mux_address_decimal() {
    let overrides = EnvOverrides {
        mux_address: Some("32".to_string()),
        ..EnvOverrides::default()
    };
    let config = AppConfig::from_env(&overrides);
    assert_eq!(config.multiplexer.address, 0x32);
}

#[test]
fn test_cli_parse_flags() {
    let parsed = CliParser::parse(
        &args(&["prog", "--network", "--system", "--mux", "--interval", "7"]),
        AppConfig::default(),
    )
    .unwrap();
    assert_eq!(parsed.enabled_screens, vec!["network", "system"]);
    assert!(parsed.multiplexer.enabled);
    assert_eq!(parsed.interval_seconds, 7);
}

#[test]
fn test_cli_parse_equals_forms() {
    let parsed = CliParser::parse(
        &args(&[
            "prog",
            "--interval=9",
            "--screen-duration=20",
            "--screens=gpio,storage",
            "--mux-address=0x42",
        ]),
        AppConfig::default(),
    )
    .unwrap();
    assert_eq!(parsed.interval_seconds, 9);
    assert_eq!(parsed.screen_duration_secs, 20);
    assert_eq!(parsed.enabled_screens, vec!["gpio", "storage"]);
    assert_eq!(parsed.multiplexer.address, 0x42);
}

#[test]
fn test_cli_parse_clear_and_daemon() {
    let parsed = CliParser::parse(&args(&["prog", "--clear", "-d"]), AppConfig::default()).unwrap();
    assert!(parsed.clear_only);
    assert!(parsed.daemon_mode);
}

#[test]
fn test_cli_parse_bad_channel() {
    let r = CliParser::parse(&args(&["prog", "--mux-channel", "9"]), AppConfig::default());
    assert!(matches!(r, Err(ConfigError::InvalidMultiplexerChannel(9))));
}

#[test]
fn test_cli_parse_unknown_screen_rejected() {
    let r = CliParser::parse(&args(&["prog", "--screens", "network,bogus"]), AppConfig::default());
    assert!(matches!(r, Err(ConfigError::InvalidScreen(s)) if s == "bogus"));
}

#[test]
fn test_cli_parse_zero_interval_rejected() {
    let r = CliParser::parse(&args(&["prog", "--interval", "0"]), AppConfig::default());
    assert!(matches!(r, Err(ConfigError::InvalidInterval)));
}

#[test]
fn test_cli_get_next_arg() {
    let a = args(&["prog", "--interval", "7"]);
    assert_eq!(CliParser::get_next_arg(&a, 1), Some(&"7".to_string()));
    assert_eq!(CliParser::get_next_arg(&a, 2), None);
}

#[test]
fn test_config_error_messages() {
    assert_eq!(
        ConfigError::InvalidInterval.message(),
        "Update interval must be greater than 0"
    );
    assert_eq!(
        ConfigError::InvalidScreen("bogus".to_string()).message(),
        "Invalid screen type: bogus"
    );
    assert_eq!(
        ConfigError::InvalidMultiplexerChannel(9).message(),
        "Multiplexer channel must be 0-7, got: 9"
    );
}

#[test]
fn test_app_error_messages() {
    assert_eq!(AppError::display_init("no panel").message(), "Display error: no panel");
    assert_eq!(AppError::daemon("fork failed").message(), "Daemon error: fork failed");
    assert_eq!(
        AppError::from(ConfigError::NoScreensEnabled).message(),
        "Configuration error: At least one screen must be enabled"
    );
}

#[test]
fn test_display_err_helper() {
    let ok: Result<u8, String> = Ok(3);
    assert!(matches!(ok.display_err("init"), Ok(3)));
    let err: Result<u8, String> = Err("bus stuck".to_string());
    match err.display_err("init") {
        Err(AppError::Display(m)) => assert_eq!(m, "init: bus stuck"),
        _ => panic!("expected a display error"),
    }
}
