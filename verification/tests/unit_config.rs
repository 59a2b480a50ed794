//! Tests of the configuration: defaults, validation and key masking.

use autocoin::config::{
    mask_key, Settings, StrategyConfig, TradingConfig, UpbitConfig,
};

#[test]
fn test_settings_default() {
    let upbit = UpbitConfig::default();
    assert_eq!(upbit.api_url, "https://api.upbit.com/v1");
    assert_eq!(upbit.rate_limit, 10);
}

#[test]
fn test_trading_config_default() {
    let trading = TradingConfig::default();
    assert_eq!(trading.target_coins, 20);
    assert_eq!(trading.profit_rate_bps, 1000);
    assert_eq!(trading.stop_loss_rate_bps, 500);
    assert_eq!(trading.surge_threshold_bps, 500);
    assert_eq!(trading.surge_timeframe_minutes, 60);
    assert_eq!(trading.volume_multiplier_bps, 20000);
    assert_eq!(trading.min_order_amount, 5000);
    assert_eq!(trading.max_position_ratio_bps, 5000);
    assert_eq!(trading.max_positions, 1);
}

#[test]
fn test_trading_config_defaults() {
    let config = TradingConfig::default();

    assert_eq!(config.target_coins, 20);
    assert_eq!(config.profit_rate_bps, 1000);
    assert_eq!(config.stop_loss_rate_bps, 500);
    assert_eq!(config.surge_threshold_bps, 500);
    assert_eq!(config.min_order_amount, 5000);
}

#[test]
fn test_key_masking() {
    assert_eq!(mask_key("short"), "***");
    assert!(mask_key("very_long_key_here").contains("..."));
    assert!(!mask_key("very_long_key_here").contains("very_long"));
}

#[test]
fn test_key_masking_exact() {
    assert_eq!(mask_key("very_long_key_here"), "very...here");
    assert_eq!(mask_key("12345678"), "***");
    assert_eq!(mask_key("123456789"), "1234...6789");
}

#[test]
fn test_strategy_config_default() {
    let config = StrategyConfig::default_config();
    assert_eq!(config.strategy.name, "momentum_following");
    assert_eq!(config.strategy.surge_detection.timeframe_minutes, 60);
}

#[test]
fn test_settings_validate_missing_key() {
    let settings = Settings {
        upbit: UpbitConfig { access_key: String::new(), ..UpbitConfig::default() },
        ..Settings::default()
    };
    assert!(settings.validate().is_err());
}

#[test]
fn test_settings_validation_messages() {
    let mut settings = Settings::default();
    settings.upbit.access_key = "key".to_string();
    assert_eq!(settings.validate().unwrap_err(), "UPBIT_SECRET_KEY is required");

    settings.upbit.secret_key = "secret".to_string();
    assert!(settings.validate().is_ok());

    settings.trading.profit_rate_bps = 0;
    assert_eq!(settings.validate().unwrap_err(), "TARGET_PROFIT_RATE must be positive");

    settings.trading.profit_rate_bps = 1000;
    settings.trading.stop_loss_rate_bps = 10000;
    assert_eq!(settings.validate().unwrap_err(), "STOP_LOSS_RATE must be between 0 and 1");

    settings.trading.stop_loss_rate_bps = 500;
    settings.trading.min_order_amount = 999;
    assert_eq!(settings.validate().unwrap_err(), "MIN_ORDER_AMOUNT_KRW must be at least 1000");

    settings.trading.min_order_amount = 5000;
    settings.trading.surge_threshold_bps = 0;
    assert_eq!(settings.validate().unwrap_err(), "SURGE_THRESHOLD must be positive");

    settings.trading.surge_threshold_bps = 500;
    settings.trading.volume_multiplier_bps = 0;
    assert_eq!(settings.validate().unwrap_err(), "VOLUME_MULTIPLIER must be positive");
}
