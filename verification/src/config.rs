//! Configuration of the trading system.
//!
//! Loading from files and environment variables happens in the process entry
//! point; the library holds the validated, plain-value settings the
//! components run on. Rates are basis points.

use vstd::prelude::*;
use crate::BPS_SCALE;

verus! {

/// Upbit API endpoints and credentials.
#[derive(Debug, Clone, PartialEq)]
pub struct UpbitConfig {
    /// REST API URL.
    pub api_url: String,
    /// Streaming API URL.
    pub ws_url: String,
    /// Access key.
    pub access_key: String,
    /// Secret key.
    pub secret_key: String,
    /// Requests allowed per rate-limit window.
    pub rate_limit: u32,
}

impl Default for UpbitConfig {
    /// Public endpoints, empty credentials, ten requests per second.
    fn default() -> (r: UpbitConfig)
        ensures
            r.api_url@ == "https://api.upbit.com/v1"@,
            r.ws_url@ == "wss://api.upbit.com/websocket/v1"@,
            r.access_key@ == Seq::<char>::empty(),
            r.secret_key@ == Seq::<char>::empty(),
            r.rate_limit == 10,
    {
        UpbitConfig {
            api_url: String::from_str("https://api.upbit.com/v1"),
            ws_url: String::from_str("wss://api.upbit.com/websocket/v1"),
            access_key: String::new(),
            secret_key: String::new(),
            rate_limit: 10,
        }
    }
}

/// Trading parameters; every rate is in basis points.
#[derive(Debug, Clone, PartialEq)]
pub struct TradingConfig {
    /// How many of the top markets to watch.
    pub target_coins: usize,
    /// Take-profit rate over the entry price.
    pub profit_rate_bps: u32,
    /// Stop-loss rate under the entry price.
    pub stop_loss_rate_bps: u32,
    /// Least relative price rise that counts as a surge.
    pub surge_threshold_bps: u32,
    /// Lookback window for surge detection, in minutes.
    pub surge_timeframe_minutes: u64,
    /// Least ratio of a tick's volume to the window average, as a surge.
    pub volume_multiplier_bps: u32,
    /// Least order amount the exchange accepts, in KRW.
    pub min_order_amount: u64,
    /// Share of the balance one position may bind.
    pub max_position_ratio_bps: u32,
    /// How many positions may be held at once; the design assumes one.
    pub max_positions: usize,
}

impl TradingConfig {
    /// What the decision and detection logic needs of a configuration:
    /// positive detection thresholds, a position ratio within the balance,
    /// and a lookback window whose length in milliseconds stays a machine
    /// word.
    pub open spec fn wf(&self) -> bool {
        &&& 1 <= self.surge_threshold_bps
        &&& 1 <= self.volume_multiplier_bps
        &&& self.surge_timeframe_minutes <= 1000000
        &&& self.max_position_ratio_bps <= BPS_SCALE
        &&& self.stop_loss_rate_bps <= BPS_SCALE
        &&& self.profit_rate_bps <= BPS_SCALE
    }
}

impl Default for TradingConfig {
    /// 10% take profit, 5% stop loss, 5% surge over 60 minutes at twice the
    /// average volume, 5,000 KRW minimum order, half the balance per
    /// position, one position.
    fn default() -> (r: TradingConfig)
        ensures
            r == (TradingConfig {
                target_coins: 20 as usize,
                profit_rate_bps: 1000u32,
                stop_loss_rate_bps: 500u32,
                surge_threshold_bps: 500u32,
                surge_timeframe_minutes: 60u64,
                volume_multiplier_bps: 20000u32,
                min_order_amount: 5000u64,
                max_position_ratio_bps: 5000u32,
                max_positions: 1 as usize,
            }),
            r.wf(),
    {
        TradingConfig {
            target_coins: 20,
            profit_rate_bps: 1000,
            stop_loss_rate_bps: 500,
            surge_threshold_bps: 500,
            surge_timeframe_minutes: 60,
            volume_multiplier_bps: 20000,
            min_order_amount: 5000,
            max_position_ratio_bps: 5000,
            max_positions: 1,
        }
    }
}

/// Discord notification settings.
#[derive(Debug, Clone, PartialEq)]
pub struct DiscordConfig {
    /// Webhook URL.
    pub webhook_url: String,
    /// Whether notifications are sent at all.
    pub enabled: bool,
    pub notify_on_buy: bool,
    pub notify_on_sell: bool,
    pub notify_on_signal: bool,
    pub notify_on_error: bool,
}

impl Default for DiscordConfig {
    /// Disabled, with every notification kind selected once enabled.
    fn default() -> (r: DiscordConfig)
        ensures
            r.webhook_url@ == Seq::<char>::empty(),
            !r.enabled,
            r.notify_on_buy,
            r.notify_on_sell,
            r.notify_on_signal,
            r.notify_on_error,
    {
        DiscordConfig {
            webhook_url: String::new(),
            enabled: false,
            notify_on_buy: true,
            notify_on_sell: true,
            notify_on_signal: true,
            notify_on_error: true,
        }
    }
}

/// Paths of the process: database and data directory.
#[derive(Debug, Clone, PartialEq)]
pub struct SystemConfig {
    pub db_path: String,
    pub data_dir: String,
}

impl Default for SystemConfig {
    fn default() -> (r: SystemConfig)
        ensures
            r.db_path@ == "./data/trading.db"@,
            r.data_dir@ == "./data"@,
    {
        SystemConfig {
            db_path: String::from_str("./data/trading.db"),
            data_dir: String::from_str("./data"),
        }
    }
}

/// Logging settings of the process.
#[derive(Debug, Clone, PartialEq)]
pub struct LoggingConfig {
    /// Log level name.
    pub level: String,
    /// Whether log lines are JSON.
    pub json_format: bool,
    /// Log file path, when logging to a file.
    pub log_file: Option<String>,
}

impl Default for LoggingConfig {
    fn default() -> (r: LoggingConfig)
        ensures
            r.level@ == "info"@,
            r.json_format,
            r.log_file is None,
    {
        LoggingConfig { level: String::from_str("info"), json_format: true, log_file: None }
    }
}

/// All settings of the system.
#[derive(Debug, Clone, PartialEq)]
pub struct Settings {
    pub upbit: UpbitConfig,
    pub trading: TradingConfig,
    pub discord: DiscordConfig,
    pub system: SystemConfig,
    pub logging: LoggingConfig,
}

impl Default for Settings {
    fn default() -> (r: Settings)
        ensures
            r.trading.wf(),
            r.trading.min_order_amount == 5000,
            r.trading.max_position_ratio_bps == 5000,
            r.trading.stop_loss_rate_bps == 500,
            r.trading.profit_rate_bps == 1000,
            r.upbit.access_key@ == Seq::<char>::empty(),
            r.upbit.secret_key@ == Seq::<char>::empty(),
    {
        Settings {
            upbit: UpbitConfig::default(),
            trading: TradingConfig::default(),
            discord: DiscordConfig::default(),
            system: SystemConfig::default(),
            logging: LoggingConfig::default(),
        }
    }
}

impl Settings {
    /// Which settings are accepted: credentials present, a positive
    /// take-profit rate, a stop-loss rate under one, a minimum order amount
    /// of at least 1,000 KRW, and positive surge-detection thresholds (the
    /// detectors divide by them).
    pub open spec fn spec_valid(&self) -> bool {
        &&& self.upbit.access_key@.len() > 0
        &&& self.upbit.secret_key@.len() > 0
        &&& self.trading.profit_rate_bps > 0
        &&& self.trading.stop_loss_rate_bps < BPS_SCALE
        &&& self.trading.min_order_amount >= 1000
        &&& self.trading.surge_threshold_bps > 0
        &&& self.trading.volume_multiplier_bps > 0
    }

    /// Accept or reject the settings, naming the first rejected field.
    pub fn validate(&self) -> (r: Result<(), String>)
        ensures
            r is Ok <==> self.spec_valid(),
    {
        if self.upbit.access_key.as_str().unicode_len() == 0 {
            return Err(String::from_str("UPBIT_ACCESS_KEY is required"));
        }
        if self.upbit.secret_key.as_str().unicode_len() == 0 {
            return Err(String::from_str("UPBIT_SECRET_KEY is required"));
        }
        if self.trading.profit_rate_bps == 0 {
            return Err(String::from_str("TARGET_PROFIT_RATE must be positive"));
        }
        if self.trading.stop_loss_rate_bps >= BPS_SCALE {
            return Err(String::from_str("STOP_LOSS_RATE must be between 0 and 1"));
        }
        if self.trading.min_order_amount < 1000 {
            return Err(String::from_str("MIN_ORDER_AMOUNT_KRW must be at least 1000"));
        }
        if self.trading.surge_threshold_bps == 0 {
            return Err(String::from_str("SURGE_THRESHOLD must be positive"));
        }
        if self.trading.volume_multiplier_bps == 0 {
            return Err(String::from_str("VOLUME_MULTIPLIER must be positive"));
        }
        Ok(())
    }
}

/// Mask a credential for display: a short key becomes `***`, a longer one
/// keeps its first and last four characters around an ellipsis.
pub fn mask_key(key: &str) -> (r: String)
    ensures
        key@.len() <= 8 ==> r@ == "***"@,
        key@.len() > 8 ==> r@ == key@.subrange(0, 4) + "..."@ + key@.subrange(
            key@.len() - 4,
            key@.len() as int,
        ),
{
    let len = key.unicode_len();
    if len <= 8 {
        String::from_str("***")
    } else {
        let mut s = String::from_str(key.substring_char(0, 4));
        s.append("...");
        s.append(key.substring_char(len - 4, len));
        s
    }
}

/// Surge-detection settings of a strategy file.
#[derive(Debug, Clone, PartialEq)]
pub struct SurgeDetectionConfig {
    pub timeframe_minutes: u64,
    pub threshold_bps: u32,
    pub volume_multiplier_bps: u32,
}

/// Position sizing settings of a strategy file.
#[derive(Debug, Clone, PartialEq)]
pub struct PositionConfig {
    pub max_positions: usize,
    pub max_position_ratio_bps: u32,
}

/// Exit settings of a strategy file.
#[derive(Debug, Clone, PartialEq)]
pub struct RiskConfig {
    pub stop_loss_bps: u32,
    pub take_profit_bps: u32,
    pub trailing_stop_enabled: bool,
}

/// Market-selection settings of a strategy file.
#[derive(Debug, Clone, PartialEq)]
pub struct TargetsConfig {
    pub top_n_coins: usize,
    pub min_volume_24h: u64,
}

/// A named strategy with its detection, sizing, exit and target settings.
#[derive(Debug, Clone, PartialEq)]
pub struct StrategySettings {
    pub name: String,
    pub version: String,
    pub surge_detection: SurgeDetectionConfig,
    pub position: PositionConfig,
    pub risk: RiskConfig,
    pub targets: TargetsConfig,
}

/// A strategy configuration as loaded from a strategy file.
#[derive(Debug, Clone, PartialEq)]
pub struct StrategyConfig {
    pub strategy: StrategySettings,
}

impl StrategyConfig {
    /// The built-in momentum-following strategy: 5% surge over 60 minutes at
    /// twice the average volume, one position of half the balance, 5% stop
    /// loss and 10% take profit, over the top 20 markets.
    pub fn default_config() -> (r: StrategyConfig)
        ensures
            r.strategy.name@ == "momentum_following"@,
            r.strategy.version@ == "1.0"@,
            r.strategy.surge_detection == (SurgeDetectionConfig {
                timeframe_minutes: 60u64,
                threshold_bps: 500u32,
                volume_multiplier_bps: 20000u32,
            }),
            r.strategy.position == (PositionConfig {
                max_positions: 1 as usize,
                max_position_ratio_bps: 5000u32,
            }),
            r.strategy.risk == (RiskConfig {
                stop_loss_bps: 500u32,
                take_profit_bps: 1000u32,
                trailing_stop_enabled: false,
            }),
            r.strategy.targets == (TargetsConfig {
                top_n_coins: 20 as usize,
                min_volume_24h: 1_000_000_000u64,
            }),
    {
        StrategyConfig {
            strategy: StrategySettings {
                name: String::from_str("momentum_following"),
                version: String::from_str("1.0"),
                surge_detection: SurgeDetectionConfig {
                    timeframe_minutes: 60,
                    threshold_bps: 500,
                    volume_multiplier_bps: 20000,
                },
                position: PositionConfig { max_positions: 1, max_position_ratio_bps: 5000 },
                risk: RiskConfig {
                    stop_loss_bps: 500,
                    take_profit_bps: 1000,
                    trailing_stop_enabled: false,
                },
                targets: TargetsConfig { top_n_coins: 20, min_volume_24h: 1_000_000_000 },
            },
        }
    }
}

} // verus!
