//! Tests of the market-data stream: frame decoding and the bounded
//! reconnect policy.

use std::io::Write;

use autocoin::stream::{
    decode_frame, MarketMonitor, ReconnectingWebSocket, StreamStep, UpbitWebSocket,
};

#[test]
fn test_market_monitor_creation() {
    let markets = vec!["KRW-BTC".to_string(), "KRW-ETH".to_string()];
    let monitor = MarketMonitor::new(markets);
    let _ = monitor;
    assert!(true, "MarketMonitor created successfully");
}

#[test]
fn test_websocket_url() {
    let ws = UpbitWebSocket::new(None);
    assert_eq!(ws.url, "wss://api.upbit.com/websocket/v1");

    let ws_custom = UpbitWebSocket::new(Some("wss://custom.example.com/ws".to_string()));
    assert_eq!(ws_custom.url, "wss://custom.example.com/ws");
}

#[test]
fn test_reconnecting_websocket_creation() {
    let markets = vec!["KRW-BTC".to_string()];
    let ws = ReconnectingWebSocket::new(markets);
    assert_eq!(ws.markets, vec!["KRW-BTC".to_string()]);
    assert_eq!(ws.max_retries, 5);
    assert_eq!(ws.retry_delay_ms, 5000);
    assert_eq!(ws.retry_count, 0);
}

#[test]
fn test_reconnecting_websocket_builders() {
    let ws = ReconnectingWebSocket::new(vec!["KRW-BTC".to_string()])
        .with_max_retries(2)
        .with_retry_delay(100);
    assert_eq!(ws.max_retries, 2);
    assert_eq!(ws.retry_delay_ms, 100);
}

#[test]
fn test_stream_gives_up_after_max_retries() {
    // Six consecutive connection failures with a limit of five: the first
    // five are retried after the fixed delay, the sixth is fatal, and no
    // further attempt is made.
    let mut ws = ReconnectingWebSocket::new(vec!["KRW-BTC".to_string()]);
    assert_eq!(ws.max_retries, 5);

    for attempt in 1..=5u32 {
        match ws.on_connection_failure() {
            StreamStep::RetryAfter { delay_ms } => assert_eq!(delay_ms, 5000),
            StreamStep::Fatal => panic!("failure {} must still be retried", attempt),
        }
    }
    assert_eq!(ws.retry_count, 5);

    assert!(matches!(ws.on_connection_failure(), StreamStep::Fatal));
    assert_eq!(ws.retry_count, 6);

    match ws.fatal_error() {
        autocoin::error::TradingError::WebSocket(msg) => {
            assert_eq!(msg, "Max retries exceeded");
        }
        other => panic!("expected a stream error, got {:?}", other),
    }
}

#[test]
fn test_successful_reconnect_resets_counter() {
    let mut ws = ReconnectingWebSocket::new(vec!["KRW-BTC".to_string()]);

    assert!(matches!(ws.on_connection_failure(), StreamStep::RetryAfter { .. }));
    assert!(matches!(ws.on_connection_failure(), StreamStep::RetryAfter { .. }));
    assert_eq!(ws.retry_count, 2);

    ws.on_connection_success();
    assert_eq!(ws.retry_count, 0);
}

#[test]
fn test_decode_plain_json_frame() {
    let frame = br#"{"type":"trade","code":"KRW-BTC"}"#.to_vec();
    let text = decode_frame(frame).expect("plain JSON decodes");
    assert_eq!(text, r#"{"type":"trade","code":"KRW-BTC"}"#);
}

#[test]
fn test_decode_flag_prefixed_frame() {
    let mut frame = vec![0u8];
    frame.extend_from_slice(b"{\"type\":\"ticker\"}");
    let text = decode_frame(frame).expect("flag-prefixed text decodes");
    assert_eq!(text, "{\"type\":\"ticker\"}");
}

#[test]
fn test_decode_deflated_frame() {
    let payload = br#"{"type":"trade","trade_price":50000000}"#;
    let mut encoder =
        flate2::write::DeflateEncoder::new(Vec::new(), flate2::Compression::default());
    encoder.write_all(payload).expect("compression succeeds");
    let compressed = encoder.finish().expect("compression finishes");
    // Deflate output opens with neither '{', '[' nor zero, so the decoder
    // must actually decompress it.
    assert_ne!(compressed[0], b'{');

    let text = decode_frame(compressed).expect("deflated text decodes");
    assert_eq!(text.as_bytes(), payload);
}

#[test]
fn test_decode_empty_and_malformed_frames() {
    assert!(decode_frame(Vec::new()).is_none());
    // An invalid deflate stream is skipped, not fatal.
    assert!(decode_frame(vec![0xffu8, 0x00, 0x01]).is_none());
    // A JSON-looking frame with invalid UTF-8 is skipped.
    assert!(decode_frame(vec![b'{', 0xff, 0xfe]).is_none());
}
