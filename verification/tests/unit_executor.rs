//! Tests of the execution agent's logic: planned calls, bounded retries
//! with exponential backoff, and portfolio bookkeeping.

use autocoin::config::TradingConfig;
use autocoin::error::{TradingError, UpbitError};
use autocoin::executor::{
    backoff_delay, ExecutionAgent, PlannedCall, PortfolioSnapshot, RetryStep,
};
use autocoin::types::{Decision, Order, OrderResult, OrderSide, OrderStatus, Position};

#[test]
fn test_execution_agent_creation() {
    assert!(true, "ExecutionAgent structure validated");
}

#[test]
fn test_plan_decision() {
    let agent = ExecutionAgent::new(TradingConfig::default());

    let buy = Decision::buy("KRW-BTC".to_string(), 50000, "Surge".to_string());
    match agent.plan_decision(&buy) {
        PlannedCall::BuyCall { market, amount_krw } => {
            assert_eq!(market, "KRW-BTC");
            assert_eq!(amount_krw, 50000);
        }
        other => panic!("expected a buy call, got {:?}", other),
    }

    let sell = Decision::sell("KRW-BTC".to_string(), 750, "Exit".to_string());
    match agent.plan_decision(&sell) {
        PlannedCall::SellCall { market, amount } => {
            assert_eq!(market, "KRW-BTC");
            assert_eq!(amount, 750);
        }
        other => panic!("expected a sell call, got {:?}", other),
    }

    let hold = Decision::hold("Nothing to do".to_string());
    assert!(matches!(agent.plan_decision(&hold), PlannedCall::NoCall));
}

#[test]
fn test_buy_retries_twice_then_succeeds() {
    // The market buy fails twice with a retryable error and succeeds on the
    // third attempt, inside the three-attempt limit: the first backoff is
    // twice the base delay, the second four times, and the decision ends in
    // a successful order result.
    let agent = ExecutionAgent::new(TradingConfig::default());
    let mut retry = agent.new_retry_state();
    let error = TradingError::UpbitApi(UpbitError::Timeout);
    assert_eq!(error.retry_delay(), 1000);

    match retry.on_failure(&error) {
        RetryStep::RetryAfter { delay_ms } => assert_eq!(delay_ms, 2000),
        RetryStep::GiveUp => panic!("the first failure must be retried"),
    }
    match retry.on_failure(&error) {
        RetryStep::RetryAfter { delay_ms } => assert_eq!(delay_ms, 4000),
        RetryStep::GiveUp => panic!("the second failure must be retried"),
    }

    // The third attempt succeeds.
    let mut order = Order::new("KRW-BTC".to_string(), OrderSide::Bid, 0, 0);
    order.status = OrderStatus::Executed;
    let result = OrderResult::success(order);
    assert!(result.success);
    assert!(result.error.is_none());
}

#[test]
fn test_retry_exhaustion_gives_up() {
    let agent = ExecutionAgent::new(TradingConfig::default());
    let mut retry = agent.new_retry_state();
    let error = TradingError::RateLimitExceeded;

    assert!(matches!(retry.on_failure(&error), RetryStep::RetryAfter { .. }));
    assert!(matches!(retry.on_failure(&error), RetryStep::RetryAfter { .. }));
    // The third failure exhausts the three attempts.
    assert!(matches!(retry.on_failure(&error), RetryStep::GiveUp));
}

#[test]
fn test_fatal_error_not_retried() {
    let agent = ExecutionAgent::new(TradingConfig::default());
    let mut retry = agent.new_retry_state();
    let error = TradingError::Authentication("bad credentials".to_string());

    assert!(matches!(retry.on_failure(&error), RetryStep::GiveUp));
}

#[test]
fn test_backoff_delay_values() {
    let error = TradingError::RateLimitExceeded;
    assert_eq!(backoff_delay(&error, 0), 5000);
    assert_eq!(backoff_delay(&error, 1), 10000);
    assert_eq!(backoff_delay(&error, 2), 20000);

    let ws = TradingError::WebSocket("reset".to_string());
    assert_eq!(backoff_delay(&ws, 3), 16000);
}

#[test]
fn test_buy_fill_opens_position() {
    let agent = ExecutionAgent::new(TradingConfig::default());
    let snapshot = PortfolioSnapshot { krw_balance: 100000, position: None };

    let mut order = Order::new("KRW-BTC".to_string(), OrderSide::Bid, 0, 0);
    order.executed_amount = 50000;
    order.executed_volume = 5;
    order.status = OrderStatus::Executed;

    let decision = Decision::buy("KRW-BTC".to_string(), 50000, "Surge".to_string());
    let after = agent.apply_execution(&snapshot, &decision, &Some(order));

    assert_eq!(after.krw_balance, 50000);
    let position = after.position.expect("an opened position");
    assert_eq!(position.market, "KRW-BTC");
    assert_eq!(position.entry_price, 10000); // 50,000 KRW over 5 units
    assert_eq!(position.amount, 5);
    assert_eq!(position.stop_loss, 9500);
    assert_eq!(position.take_profit, 11000);
}

#[test]
fn test_sell_fill_closes_position() {
    let agent = ExecutionAgent::new(TradingConfig::default());
    let held = Position::new("KRW-BTC".to_string(), 10000, 5, 500, 1000);
    let snapshot = PortfolioSnapshot { krw_balance: 50000, position: Some(held) };

    let mut order = Order::new("KRW-BTC".to_string(), OrderSide::Ask, 0, 0);
    order.executed_amount = 55000;
    order.executed_volume = 5;

    let decision = Decision::sell("KRW-BTC".to_string(), 5, "Exit".to_string());
    let after = agent.apply_execution(&snapshot, &decision, &Some(order));

    assert_eq!(after.krw_balance, 105000);
    assert!(after.position.is_none());
}

#[test]
fn test_failed_call_commits_nothing() {
    let agent = ExecutionAgent::new(TradingConfig::default());
    let snapshot = PortfolioSnapshot { krw_balance: 100000, position: None };

    let decision = Decision::buy("KRW-BTC".to_string(), 50000, "Surge".to_string());
    let after = agent.apply_execution(&snapshot, &decision, &None);

    assert_eq!(after, snapshot);
}

#[test]
fn test_repeated_holds_change_nothing() {
    // Processing hold decisions over and over never touches the balance or
    // the position.
    let agent = ExecutionAgent::new(TradingConfig::default());
    let held = Position::new("KRW-BTC".to_string(), 100000, 1000, 500, 1000);
    let start = PortfolioSnapshot { krw_balance: 42000, position: Some(held) };

    let mut state = start.clone();
    let hold = Decision::hold("No significant signal".to_string());
    for _ in 0..3 {
        state = agent.apply_execution(&state, &hold, &None);
        assert!(matches!(agent.plan_decision(&hold), PlannedCall::NoCall));
    }

    assert_eq!(state, start);
}
