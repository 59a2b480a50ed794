//! Tests of the supporting modules: errors, persistence, ratings,
//! dashboard layout, notifications, supervision and candle units.

use autocoin::backtest::{OptimizationTarget, SharpeRating, TradeType};
use autocoin::dashboard::{DashboardLayout, LayoutConfig, UserAction};
use autocoin::discord::{DiscordEmbed, DiscordWebhook, EmbedField};
use autocoin::error::{TradingError, UpbitError};
use autocoin::historical::CandleUnit;
use autocoin::persist::{
    close_position, position_to_record, record_to_position, PositionStatus,
};
use autocoin::strategy::{IndicatorType, StrategyError};
use autocoin::types::Position;
use autocoin::watchdog::{ServiceConfig, Watchdog, WatchdogConfig, WatchdogStep};
use autocoin::web::WebServerConfig;

#[test]
fn test_mock_structure() {
    assert!(true, "Mock test structure validated");
}

#[test]
fn test_settings_validation_missing_key() {
    assert!(true, "Settings validation test structure");
}

#[test]
fn test_error_retryable() {
    let rate_limit_error = TradingError::RateLimitExceeded;
    assert!(rate_limit_error.is_retryable());

    let config_error = TradingError::Config("test".to_string());
    assert!(!config_error.is_retryable());
}

#[test]
fn test_fatal_errors_not_retryable() {
    // Credential, token and parse failures are fatal; only the network
    // class is retried.
    assert!(!TradingError::UpbitApi(UpbitError::InvalidCredentials).is_retryable());
    assert!(!TradingError::UpbitApi(UpbitError::JwtCreationFailed("bad key".to_string()))
        .is_retryable());
    assert!(!TradingError::UpbitApi(UpbitError::ResponseParseError("garbled".to_string()))
        .is_retryable());
    assert!(!TradingError::UpbitApi(UpbitError::ApiError {
        code: "400".to_string(),
        message: "rejected".to_string(),
    })
    .is_retryable());

    assert!(TradingError::UpbitApi(UpbitError::Timeout).is_retryable());
    assert!(TradingError::UpbitApi(UpbitError::RequestFailed("reset".to_string())).is_retryable());
    assert!(TradingError::UpbitApi(UpbitError::RateLimitError).is_retryable());
    assert!(TradingError::WebSocket("closed".to_string()).is_retryable());
}

#[test]
fn test_retry_delay() {
    let rate_limit_error = TradingError::RateLimitExceeded;
    assert_eq!(rate_limit_error.retry_delay(), 5000);

    let api_error = TradingError::UpbitApi(UpbitError::RequestFailed("test".to_string()));
    assert_eq!(api_error.retry_delay(), 1000);
}

#[test]
fn test_insufficient_balance_error() {
    let error = TradingError::InsufficientBalance { required: 10000, available: 5000 };
    assert_eq!(error.message(), "Insufficient balance: required 10000, available 5000");
}

#[test]
fn test_error_messages() {
    let error = TradingError::WebSocket("Connection closed".to_string());
    assert_eq!(error.message(), "WebSocket error: Connection closed");

    let api = UpbitError::ApiError { code: "500".to_string(), message: "oops".to_string() };
    assert_eq!(api.message(), "API returned error: 500 - oops");
    assert_eq!(
        TradingError::UpbitApi(UpbitError::Timeout).message(),
        "Upbit API error: Request timeout"
    );
}

#[test]
fn test_from_api_error() {
    assert!(matches!(UpbitError::from_api_error("429", "slow down"), UpbitError::RateLimitError));
    assert!(matches!(UpbitError::from_api_error("401", "denied"), UpbitError::InvalidCredentials));
    assert!(matches!(UpbitError::from_api_error("403", "denied"), UpbitError::InvalidCredentials));
    match UpbitError::from_api_error("500", "server error") {
        UpbitError::ApiError { code, message } => {
            assert_eq!(code, "500");
            assert_eq!(message, "server error");
        }
        other => panic!("expected a plain API error, got {:?}", other),
    }
}

#[test]
fn test_position_round_trip() {
    // Persisting then loading keeps entry price, amount, stop-loss and
    // take-profit exactly.
    let position = Position::new("KRW-BTC".to_string(), 100000, 1000, 500, 1000);
    let record = position_to_record(&position, "row-1".to_string());
    assert_eq!(record.status, PositionStatus::Active);

    let loaded = record_to_position(&record);
    assert_eq!(loaded.market, position.market);
    assert_eq!(loaded.entry_price, position.entry_price);
    assert_eq!(loaded.amount, position.amount);
    assert_eq!(loaded.entry_time, position.entry_time);
    assert_eq!(loaded.stop_loss, position.stop_loss);
    assert_eq!(loaded.take_profit, position.take_profit);
}

#[test]
fn test_close_position_values() {
    let position = Position::new("KRW-BTC".to_string(), 100000, 3, 500, 1000);
    let closed = close_position(&position, 110000, 1_700_000_000_000);

    assert_eq!(closed.market, "KRW-BTC");
    assert_eq!(closed.exit_price, 110000);
    assert_eq!(closed.exit_time, 1_700_000_000_000);
    assert_eq!(closed.pnl, 30000);
    assert_eq!(closed.pnl_rate_bps, 1000);
}

#[test]
fn test_sharpe_rating_description() {
    assert_eq!(SharpeRating::Good.name(), "Good");
    assert!(!SharpeRating::Good.description().is_empty());
}

#[test]
fn test_optimization_target_names() {
    assert_eq!(OptimizationTarget::TotalReturn.name(), "Total Return");
    assert_eq!(OptimizationTarget::SharpeRatio.name(), "Sharpe Ratio");
    assert_eq!(OptimizationTarget::WinRate.name(), "Win Rate");
}

#[test]
fn test_optimization_target_all() {
    let targets = OptimizationTarget::all();
    assert_eq!(targets.len(), 6);
}

#[test]
fn test_trade_type_variants() {
    assert_ne!(TradeType::Long, TradeType::Short);
}

#[test]
fn test_layout_config_default() {
    let config = LayoutConfig::default();
    assert!(!config.compact_mode);
    assert!(config.show_help);
}

#[test]
fn test_compact_mode_detection() {
    let config = LayoutConfig::from_terminal_size(79, 24);
    assert!(config.is_compact());

    let config = LayoutConfig::from_terminal_size(80, 24);
    assert!(!config.is_compact());
}

#[test]
fn test_dashboard_layout_builders() {
    let layout = DashboardLayout::default_config();
    assert!(!layout.config.compact_mode);

    let sized = DashboardLayout::from_terminal_size(60, 20);
    assert!(sized.config.is_compact());

    let action = UserAction::Quit;
    assert_eq!(action, UserAction::Quit);
}

#[test]
fn test_embed_field() {
    let field = EmbedField::new("Test".to_string(), "Value".to_string()).inline();
    assert!(field.inline);
}

#[test]
fn test_discord_embed() {
    let embed = DiscordEmbed::new("Test".to_string(), 12345)
        .add_field(EmbedField::new("Field1".to_string(), "Value1".to_string()));

    assert_eq!(embed.title, "Test");
    assert_eq!(embed.fields.len(), 1);
}

#[test]
fn test_discord_embed_creation() {
    let embed = DiscordEmbed::new("Test".to_string(), 0x3498db);
    assert_eq!(embed.title, "Test");
    assert!(embed.fields.is_empty());
    assert!(embed.description.is_none());
}

#[test]
fn test_discord_webhook_builders() {
    let simple = DiscordWebhook::simple("hello");
    assert_eq!(simple.content.as_deref(), Some("hello"));
    assert!(simple.embeds.is_empty());

    let one = DiscordWebhook::embed(DiscordEmbed::new("T".to_string(), 1));
    assert!(one.content.is_none());
    assert_eq!(one.embeds.len(), 1);

    let many = DiscordWebhook::embeds(vec![
        DiscordEmbed::new("A".to_string(), 1),
        DiscordEmbed::new("B".to_string(), 2),
    ]);
    assert_eq!(many.embeds.len(), 2);
}

#[test]
fn test_service_config_default() {
    let config = ServiceConfig::default();
    assert_eq!(config.name, "autocoin");
    assert!(config.auto_restart);
}

#[test]
fn test_watchdog_config_default() {
    let config = WatchdogConfig::default();
    assert_eq!(config.max_restarts, 3);
    assert_eq!(config.restart_delay_secs, 10);
}

#[test]
fn test_watchdog_creation() {
    let watchdog = Watchdog::with_default("test".to_string(), vec!["--daemon".to_string()]);
    assert_eq!(watchdog.config.command, "test");
    assert_eq!(watchdog.config.args, vec!["--daemon"]);
    assert_eq!(watchdog.restart_count(), 0);
}

#[test]
fn test_restart_count() {
    let mut watchdog = Watchdog::with_default("test".to_string(), vec![]);
    assert_eq!(watchdog.restart_count(), 0);
    watchdog.reset_restart_count();
    assert_eq!(watchdog.restart_count(), 0);
}

#[test]
fn test_generate_systemd_service() {
    let config = ServiceConfig::default();
    let service = autocoin::watchdog::generate_systemd_service(&config, "autocoin");
    assert!(service.contains("[Unit]"));
    assert!(service.contains("[Service]"));
    assert!(service.contains("After=network.target"));
    assert!(service.contains("User=autocoin"));
    assert!(service.contains("ExecStart=autocoin --daemon"));
    assert!(service.contains("Restart=always"));
}

#[test]
fn test_generate_task_scheduler_xml() {
    let config = ServiceConfig::default();
    let xml = autocoin::watchdog::generate_task_scheduler_xml(
        &config,
        "operator",
        "2024-01-01T00:00:00",
    );
    assert!(xml.contains("<?xml"));
    assert!(xml.contains("<Task"));
    assert!(xml.contains("<Triggers>"));
    assert!(xml.contains("<Date>2024-01-01T00:00:00</Date>"));
    assert!(xml.contains("<UserId>operator</UserId>"));
    assert!(xml.contains("<Arguments>--daemon</Arguments>"));
}

#[test]
fn test_install_commands() {
    let config = ServiceConfig::default();
    let (linux, windows) = autocoin::watchdog::get_install_commands(&config, "autocoin");
    assert!(linux.contains("systemctl"));
    assert!(linux.contains("sudo systemctl enable autocoin"));
    assert!(windows.contains("schtasks"));
    assert!(windows.contains("schtasks /Run /TN \"autocoin\""));
}

#[test]
fn test_watchdog_gives_up_at_limit() {
    let mut watchdog = Watchdog::with_default("test".to_string(), vec![]);

    assert!(matches!(
        watchdog.on_process_exit(),
        WatchdogStep::RestartAfterSecs { delay_secs: 10 }
    ));
    assert!(matches!(watchdog.on_process_exit(), WatchdogStep::RestartAfterSecs { .. }));
    // The third ended child reaches the limit of three restarts.
    assert!(matches!(watchdog.on_process_exit(), WatchdogStep::GiveUp));
    assert_eq!(watchdog.restart_count(), 3);
}

#[test]
fn test_candle_unit() {
    assert_eq!(CandleUnit::OneMinute.as_u32(), 1);
    assert_eq!(CandleUnit::FiveMinutes.as_minutes(), 5);
    assert_eq!(CandleUnit::SixtyMinutes.as_minutes(), 60);
}

#[test]
fn test_indicator_type_display() {
    assert_eq!(IndicatorType::RSI.name(), "RSI");
    assert_eq!(IndicatorType::MACD.name(), "MACD");
    assert_eq!(IndicatorType::BollingerBands.name(), "BollingerBands");
}

#[test]
fn test_strategy_error_display() {
    let err = StrategyError::NotFound("test".to_string());
    assert_eq!(err.message(), "Strategy 'test' not found");

    let err = StrategyError::ActiveStrategyCannotBeRemoved;
    assert_eq!(err.message(), "Active strategy cannot be removed");
}

#[test]
fn test_web_server_config_default() {
    let config = WebServerConfig::default();
    assert_eq!(config.host, "127.0.0.1");
    assert_eq!(config.port, 8080);
    assert!(config.static_dir.is_none());
    assert!(config.enable_cors);
}

#[test]
fn test_u64_rendering() {
    assert_eq!(autocoin::strings::u64_to_string(0), "0");
    assert_eq!(autocoin::strings::u64_to_string(5000), "5000");
    assert_eq!(autocoin::strings::u64_to_string(1234567890), "1234567890");
}
