use mosp::config::Config;
use mosp::error::{ConfigError, Error};

#[test]
fn test_default_config() {
    let config = Config::default();
    assert_eq!(config.app_name, "Mosp");
    assert_eq!(config.window_width, 1280);
    assert_eq!(config.window_height, 720);
    assert_eq!(config.theme, "light");
    assert!(config.auto_save);
    assert_eq!(config.auto_save_interval, 300);
}

#[test]
fn test_config_validation() {
    let mut config = Config::default();

    assert!(config.validate().is_ok());

    config.window_width = 600;
    assert!(config.validate().is_err());

    config.window_width = 1280;
    config.theme = "invalid".to_string();
    assert!(config.validate().is_err());

    config.theme = "light".to_string();
    config.auto_save_interval = 30;
    assert!(config.validate().is_err());
}

#[test]
fn config_errors_name_the_broken_rule() {
    let mut config = Config::default();
    config.window_height = 599;
    assert!(matches!(config.validate(), Err(Error::Config(ConfigError::WindowTooSmall))));
    config.window_height = 600;
    config.theme = "dark".to_string();
    assert!(config.validate().is_ok());
    config.theme = "Dark".to_string();
    assert!(matches!(config.validate(), Err(Error::Config(ConfigError::InvalidTheme))));
    config.theme = "dark".to_string();
    config.auto_save_interval = 59;
    assert!(matches!(config.validate(), Err(Error::Config(ConfigError::AutoSaveTooShort))));
    config.auto_save_interval = 60;
    assert!(config.validate().is_ok());
}
