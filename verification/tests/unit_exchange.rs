//! Tests of the exchange models: the subscription message, order requests,
//! market filtering and the rate limiter.

use autocoin::exchange::{top_krw_markets, MarketInfo, OrderRequest, WsSubscription};
use autocoin::ratelimit::{AcquireStep, RateLimiter};

#[test]
fn test_websocket_subscription_format() {
    let sub = WsSubscription::trade(
        "test-ticket".to_string(),
        vec!["KRW-BTC".to_string(), "KRW-ETH".to_string()],
    );

    let json = sub.to_json();
    assert!(json.contains("trade"));
    assert!(json.contains("KRW-BTC"));
    assert!(json.contains("KRW-ETH"));
    assert!(json.contains("test-ticket"));

    let parsed: serde_json::Value = serde_json::from_str(&json).expect("valid JSON");
    assert_eq!(parsed["ticket"], "test-ticket");
    assert_eq!(parsed["type"], "trade");
    assert!(parsed["codes"].is_array());
}

#[test]
fn test_subscription_json_exact() {
    let sub = WsSubscription::new(
        "t1".to_string(),
        "ticker",
        vec!["KRW-BTC".to_string()],
    );
    assert_eq!(sub.to_json(), r#"{"ticket":"t1","type":"ticker","codes":["KRW-BTC"]}"#);

    let empty = WsSubscription::trade("t2".to_string(), Vec::new());
    assert_eq!(empty.to_json(), r#"{"ticket":"t2","type":"trade","codes":[]}"#);
}

#[test]
fn test_subscription_builders() {
    let trade = WsSubscription::trade("a".to_string(), vec!["KRW-BTC".to_string()]);
    assert_eq!(trade.subscription_type, "trade");

    let ticker = WsSubscription::ticker("b".to_string(), vec!["KRW-BTC".to_string()]);
    assert_eq!(ticker.subscription_type, "ticker");
}

#[test]
fn test_market_buy_request() {
    let request = OrderRequest::market_buy("KRW-BTC", 50000);
    assert_eq!(request.market, "KRW-BTC");
    assert_eq!(request.side, "bid");
    assert!(request.volume.is_none());
    assert_eq!(request.price.as_deref(), Some("50000"));
    assert_eq!(request.ord_type, "price");
}

#[test]
fn test_market_sell_request() {
    let request = OrderRequest::market_sell("KRW-BTC", 750);
    assert_eq!(request.side, "ask");
    assert_eq!(request.volume.as_deref(), Some("750"));
    assert!(request.price.is_none());
    assert_eq!(request.ord_type, "market");
}

#[test]
fn test_limit_requests() {
    let buy = OrderRequest::limit_buy("KRW-BTC", 50000000, 3);
    assert_eq!(buy.side, "bid");
    assert_eq!(buy.price.as_deref(), Some("50000000"));
    assert_eq!(buy.volume.as_deref(), Some("3"));
    assert_eq!(buy.ord_type, "limit");

    let sell = OrderRequest::limit_sell("KRW-BTC", 50000000, 3);
    assert_eq!(sell.side, "ask");
    assert_eq!(sell.ord_type, "limit");
}

fn info(market: &str) -> MarketInfo {
    MarketInfo {
        market: market.to_string(),
        korean_name: String::new(),
        english_name: String::new(),
        market_warning: None,
    }
}

#[test]
fn test_top_krw_markets() {
    let markets = vec![
        info("KRW-BTC"),
        info("BTC-ETH"),
        info("KRW-ETH"),
        info("USDT-BTC"),
        info("KRW-XRP"),
    ];

    let top = top_krw_markets(&markets, 2);
    assert_eq!(top, vec!["KRW-BTC".to_string(), "KRW-ETH".to_string()]);

    let all = top_krw_markets(&markets, 10);
    assert_eq!(
        all,
        vec!["KRW-BTC".to_string(), "KRW-ETH".to_string(), "KRW-XRP".to_string()]
    );

    assert!(top_krw_markets(&markets, 0).is_empty());
}

#[test]
fn test_rate_limiter() {
    let mut limiter = RateLimiter::new(5, 1000, 0);

    for i in 0..5u64 {
        assert!(
            matches!(limiter.acquire_at(i), AcquireStep::Proceed),
            "request {} fits the window",
            i
        );
    }
}

#[test]
fn test_rate_limiter_blocks_over_limit() {
    let mut limiter = RateLimiter::new(2, 1000, 0);

    assert!(matches!(limiter.acquire_at(0), AcquireStep::Proceed));
    assert!(matches!(limiter.acquire_at(100), AcquireStep::Proceed));

    // The third request inside the window must wait out its remainder.
    match limiter.acquire_at(500) {
        AcquireStep::WaitThenProceed { wait_ms } => assert_eq!(wait_ms, 501),
        AcquireStep::Proceed => panic!("the window only holds two requests"),
    }

    // A request after a full window proceeds at once.
    let mut fresh = RateLimiter::new(2, 1000, 0);
    assert!(matches!(fresh.acquire_at(0), AcquireStep::Proceed));
    assert!(matches!(fresh.acquire_at(0), AcquireStep::Proceed));
    assert!(matches!(fresh.acquire_at(1000), AcquireStep::Proceed));
}
