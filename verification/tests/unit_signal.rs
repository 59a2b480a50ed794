//! Tests of the signal detector and the momentum strategy: rolling window,
//! price change, volume ratio, confidence and surge emission.

use autocoin::config::TradingConfig;
use autocoin::signal::{PriceHistory, SignalDetector};
use autocoin::strategy::{MomentumStrategy, StrategyFactory};
use autocoin::types::{Candle, PriceTick, SignalType};

const HOUR_MS: u64 = 3_600_000;
const BASE_TIME: u64 = 1_700_000_000_000;

fn tick(market: &str, timestamp: u64, price: u64, volume: u64) -> PriceTick {
    PriceTick::new(market.to_string(), timestamp, price, 0, volume)
}

#[test]
fn test_price_history() {
    let mut history = PriceHistory::new(100);

    history.add(tick("KRW-BTC", 1000, 50000, 1));
    history.add(tick("KRW-BTC", 2000, 52500, 2));

    let latest = history.get_latest("KRW-BTC").expect("a latest tick");
    assert_eq!(latest.trade_price, 52500);
    assert!(history.get_latest("KRW-ETH").is_none());
}

#[test]
fn test_price_history_eviction() {
    let mut history = PriceHistory::new(2);
    history.add(tick("KRW-BTC", 1, 100, 1));
    history.add(tick("KRW-BTC", 2, 200, 1));
    history.add(tick("KRW-BTC", 3, 300, 1));

    // The oldest tick left; the change inside the frame runs 200 -> 300.
    let change = history.calculate_price_change("KRW-BTC", 3, HOUR_MS);
    assert_eq!(change, Some(5000));
}

#[test]
fn test_price_change_calculation() {
    let mut history = PriceHistory::new(100);

    // A 5% rise inside the hour.
    history.add(tick("KRW-BTC", BASE_TIME - HOUR_MS, 50000, 1));
    history.add(tick("KRW-BTC", BASE_TIME, 52500, 2));

    let change = history.calculate_price_change("KRW-BTC", BASE_TIME, 2 * HOUR_MS);
    assert_eq!(change, Some(500));
}

#[test]
fn test_avg_volume_calculation() {
    let mut history = PriceHistory::new(100);
    history.add(tick("KRW-BTC", BASE_TIME - 1000, 50000, 4));
    history.add(tick("KRW-BTC", BASE_TIME, 50000, 2));

    assert_eq!(history.calculate_avg_volume("KRW-BTC", BASE_TIME, HOUR_MS), 3);
    assert_eq!(history.calculate_avg_volume("KRW-ETH", BASE_TIME, HOUR_MS), 0);
}

#[test]
fn test_confidence_calculation() {
    let config = TradingConfig::default();
    let detector = SignalDetector::new(config);

    // A 10% rise at three times the average volume: the price score is
    // capped at its maximum, the volume score stands at half its cap.
    let confidence = detector.calculate_confidence(1000, 30000);
    assert_eq!(confidence, 8000);
    assert!(confidence > 7000);
}

#[test]
fn test_surge_emits_buy_signal() {
    let mut detector = SignalDetector::new(TradingConfig::default());

    assert!(detector.on_tick(&tick("KRW-BTC", BASE_TIME - HOUR_MS + 100_000, 50000, 1)).is_none());

    // A 5% rise on twice the average volume completes the surge.
    let signal = detector
        .on_tick(&tick("KRW-BTC", BASE_TIME, 52500, 2))
        .expect("a surge signal");

    assert_eq!(signal.market, "KRW-BTC");
    assert!(matches!(signal.signal_type, SignalType::Buy));
    assert_eq!(signal.confidence_bps, 4333);
    assert_eq!(signal.reason, "Price surged 5.00% with 2.0x volume");
}

#[test]
fn test_no_signal_below_threshold() {
    let mut detector = SignalDetector::new(TradingConfig::default());

    assert!(detector.on_tick(&tick("KRW-BTC", BASE_TIME - HOUR_MS + 100_000, 50000, 1)).is_none());

    // Only a 3% rise: under the 5% threshold, no signal.
    assert!(detector.on_tick(&tick("KRW-BTC", BASE_TIME, 51500, 2)).is_none());
}

#[test]
fn test_no_signal_without_volume() {
    let mut detector = SignalDetector::new(TradingConfig::default());

    assert!(detector.on_tick(&tick("KRW-BTC", BASE_TIME - HOUR_MS + 100_000, 50000, 4)).is_none());

    // The price surges but the volume stays at the average: no signal.
    assert!(detector.on_tick(&tick("KRW-BTC", BASE_TIME, 52500, 4)).is_none());
}

#[test]
fn test_momentum_strategy_creation() {
    let strategy = StrategyFactory::momentum();
    let _ = strategy;
    let custom = MomentumStrategy::new(500, 20000, 60);
    let _ = custom;
}

#[test]
fn test_surge_detection() {
    let mut strategy = MomentumStrategy::new(500, 20000, 60);

    assert!(strategy
        .update_and_analyze(tick("KRW-BTC", BASE_TIME - HOUR_MS + 100_000, 50000, 1))
        .is_none());

    // A 5% rise on twice the volume.
    let signal = strategy
        .update_and_analyze(tick("KRW-BTC", BASE_TIME, 52500, 2))
        .expect("a surge signal");

    assert!(matches!(signal.signal_type, SignalType::Buy));
}

#[test]
fn test_no_momentum_signal_below_threshold() {
    let mut strategy = MomentumStrategy::new(500, 20000, 60);

    assert!(strategy
        .update_and_analyze(tick("KRW-BTC", BASE_TIME - HOUR_MS + 100_000, 50000, 1))
        .is_none());

    // Only a 3% rise.
    assert!(strategy.update_and_analyze(tick("KRW-BTC", BASE_TIME, 51500, 1)).is_none());
}

#[test]
fn test_strategy_get_name() {
    let strategy = MomentumStrategy::new(500, 20000, 60);
    assert_eq!(strategy.get_name(), "Momentum");
}

#[test]
fn test_strategy_set_parameters_valid() {
    let mut strategy = MomentumStrategy::new(500, 20000, 60);

    let result = strategy.set_parameters(Some(1000), Some(30000), None);
    assert!(result.is_ok());
}

#[test]
fn test_strategy_set_parameters_invalid_threshold() {
    let mut strategy = MomentumStrategy::new(500, 20000, 60);

    let result = strategy.set_parameters(Some(0), None, None);
    assert!(result.is_err());
    assert!(result.unwrap_err().contains("must be positive"));
}

#[test]
fn test_strategy_set_parameters_zero_threshold() {
    let mut strategy = MomentumStrategy::new(500, 20000, 60);

    let result = strategy.set_parameters(Some(0), None, None);
    assert!(result.is_err());
}

#[test]
fn test_signal_confidence_bounds() {
    let signal = autocoin::types::Signal::buy(
        "KRW-BTC".to_string(),
        8500,
        "Strong surge".to_string(),
    );

    assert_eq!(signal.market, "KRW-BTC");
    assert!(signal.confidence_bps <= 10000);
}

#[test]
fn test_strategy_set_parameters_invalid_volume_multiplier() {
    let mut strategy = MomentumStrategy::new(500, 20000, 60);

    let result = strategy.set_parameters(None, Some(0), None);
    assert!(result.is_err());
}

#[test]
fn test_strategy_set_parameters_invalid_timeframe() {
    let mut strategy = MomentumStrategy::new(500, 20000, 60);

    let result = strategy.set_parameters(None, None, Some(0));
    assert!(result.is_err());
}

#[test]
fn test_strategy_reset() {
    let mut strategy = MomentumStrategy::new(500, 20000, 60);

    assert!(strategy
        .update_and_analyze(tick("KRW-BTC", BASE_TIME - HOUR_MS + 100_000, 50000, 1))
        .is_none());

    strategy.reset();

    // After the reset the window is empty: no frame, no signal.
    let signal = strategy.analyze(&tick("KRW-BTC", BASE_TIME, 51000, 1));
    assert!(signal.is_none());
}

#[test]
fn test_strategy_on_candle() {
    let mut strategy = MomentumStrategy::new(500, 20000, 60);

    let candle1 = Candle::new(
        "KRW-BTC".to_string(),
        BASE_TIME - HOUR_MS + 100_000,
        50000,
        50500,
        49500,
        50000,
        1,
    );
    let candle2 = Candle::new(
        "KRW-BTC".to_string(),
        BASE_TIME,
        52500,
        53000,
        52000,
        52500,
        2,
    );

    assert!(strategy.on_candle(&candle1).is_none());

    let signal = strategy.on_candle(&candle2).expect("a surge signal");
    assert!(matches!(signal.signal_type, SignalType::Buy));
}

#[test]
fn test_strategy_dynamic_parameter_update() {
    let mut strategy = MomentumStrategy::new(500, 20000, 60);

    assert!(strategy
        .update_and_analyze(tick("KRW-BTC", BASE_TIME - HOUR_MS + 100_000, 50000, 2))
        .is_none());

    // Loosen the thresholds: a 3% rise on one-and-a-half times the volume
    // now counts.
    assert!(strategy.set_parameters(Some(300), Some(15000), None).is_ok());

    let signal = strategy.update_and_analyze(tick("KRW-BTC", BASE_TIME, 51500, 3));
    assert!(signal.is_some());
}
