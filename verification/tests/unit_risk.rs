//! Tests of the risk manager: stop-loss and take-profit exits on ticks.

use autocoin::config::TradingConfig;
use autocoin::risk::RiskManager;
use autocoin::types::{Decision, Position, PriceTick, RiskAction};

fn manager_with_position(position: Position) -> RiskManager {
    let mut manager = RiskManager::new(TradingConfig::default());
    manager.set_position(Some(position));
    manager
}

fn tick(market: &str, price: u64) -> PriceTick {
    PriceTick::new(market.to_string(), 1_700_000_000_000, price, 0, 1)
}

#[test]
fn test_stop_loss_sell_on_tick() {
    // Entry 100,000 with a 5% stop-loss rate: the stop stands at 95,000, so
    // a 94,000 tick yields a stop-loss sell of the whole amount.
    let position = Position::new("KRW-BTC".to_string(), 100000, 1000, 500, 1000);
    assert_eq!(position.stop_loss, 95000);
    let manager = manager_with_position(position);

    match manager.on_tick(&tick("KRW-BTC", 94000)) {
        Some(Decision::Sell { market, amount, reason }) => {
            assert_eq!(market, "KRW-BTC");
            assert_eq!(amount, 1000);
            assert_eq!(reason, "Stop loss triggered");
        }
        other => panic!("expected a stop-loss sell, got {:?}", other),
    }
}

#[test]
fn test_no_decision_between_thresholds() {
    // Between the stop at 95,000 and the take profit at 110,000, a 96,000
    // tick yields no decision.
    let position = Position::new("KRW-BTC".to_string(), 100000, 1000, 500, 1000);
    let manager = manager_with_position(position);

    assert!(manager.on_tick(&tick("KRW-BTC", 96000)).is_none());
}

#[test]
fn test_take_profit_sell_on_tick() {
    let position = Position::new("KRW-BTC".to_string(), 100000, 1000, 500, 1000);
    assert_eq!(position.take_profit, 110000);
    let manager = manager_with_position(position);

    match manager.on_tick(&tick("KRW-BTC", 110000)) {
        Some(Decision::Sell { market, amount, reason }) => {
            assert_eq!(market, "KRW-BTC");
            assert_eq!(amount, 1000);
            assert_eq!(reason, "Take profit reached");
        }
        other => panic!("expected a take-profit sell, got {:?}", other),
    }
}

#[test]
fn test_other_market_tick_ignored() {
    let position = Position::new("KRW-BTC".to_string(), 100000, 1000, 500, 1000);
    let manager = manager_with_position(position);

    // A crash on another market does not concern the held position.
    assert!(manager.on_tick(&tick("KRW-ETH", 1)).is_none());
}

#[test]
fn test_no_position_no_decision() {
    let manager = RiskManager::new(TradingConfig::default());
    assert!(manager.on_tick(&tick("KRW-BTC", 1)).is_none());
}

#[test]
fn test_evaluate_risk_actions() {
    let position = Position::new("KRW-BTC".to_string(), 100000, 1000, 500, 1000);
    let manager = RiskManager::new(TradingConfig::default());

    match manager.evaluate_risk(&position, 94000) {
        RiskAction::StopLoss { market, current_price, pnl_rate_bps } => {
            assert_eq!(market, "KRW-BTC");
            assert_eq!(current_price, 94000);
            assert_eq!(pnl_rate_bps, -600);
        }
        other => panic!("expected a stop-loss action, got {:?}", other),
    }

    match manager.evaluate_risk(&position, 112000) {
        RiskAction::TakeProfit { current_price, pnl_rate_bps, .. } => {
            assert_eq!(current_price, 112000);
            assert_eq!(pnl_rate_bps, 1200);
        }
        other => panic!("expected a take-profit action, got {:?}", other),
    }

    assert!(matches!(manager.evaluate_risk(&position, 100000), RiskAction::Maintain));
}

#[test]
fn test_select_active_position() {
    let first = Position::new("KRW-BTC".to_string(), 100000, 1000, 500, 1000);
    let second = Position::new("KRW-ETH".to_string(), 200000, 2000, 500, 1000);
    let positions = vec![first.clone(), second];

    let selected = RiskManager::select_active_position(&positions).unwrap();
    assert_eq!(selected.market, first.market);
    assert_eq!(selected.entry_price, first.entry_price);

    assert!(RiskManager::select_active_position(&Vec::new()).is_none());
}

#[test]
fn test_position_anomaly_detection() {
    let one = vec![Position::new("KRW-BTC".to_string(), 100000, 1000, 500, 1000)];
    let two = vec![
        Position::new("KRW-BTC".to_string(), 100000, 1000, 500, 1000),
        Position::new("KRW-ETH".to_string(), 200000, 2000, 500, 1000),
    ];

    assert!(!RiskManager::is_position_anomaly(&one));
    assert!(RiskManager::is_position_anomaly(&two));
}
