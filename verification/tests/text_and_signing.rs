use std::time::{Duration, SystemTime, UNIX_EPOCH};
use vp_trader::exchange::binance::{
    leverage_params, order_params, order_ref_params, reply_error, signed_query, symbol_params,
    BinanceClient,
};
use vp_trader::exchange::types::OrderRequest;
use vp_trader::exchange::mac::hmac_sha256_hex;
use vp_trader::text::{push_decimal, str_eq};
use vp_trader::clock::{millis_or_none, secs_or_zero};

fn decimal(n: u64) -> String {
    let mut s = String::new();
    push_decimal(&mut s, n);
    s
}

#[test]
fn decimal_renders_like_display() {
    assert_eq!(decimal(0), "0");
    assert_eq!(decimal(7), "7");
    assert_eq!(decimal(10), "10");
    assert_eq!(decimal(1234567890), "1234567890");
    assert_eq!(decimal(u64::MAX), u64::MAX.to_string());
}

#[test]
fn decimal_appends() {
    let mut s = String::from("limit=");
    push_decimal(&mut s, 400);
    assert_eq!(s, "limit=400");
}

#[test]
fn str_eq_compares_characters() {
    assert!(str_eq("FILLED", "FILLED"));
    assert!(!str_eq("FILLED", "FILLE"));
    assert!(!str_eq("FILLED", "filled"));
    assert!(str_eq("", ""));
    assert!(str_eq("€x", "€x"));
    assert!(!str_eq("€x", "€y"));
}

#[test]
fn hmac_matches_rfc4231_case_2() {
    assert_eq!(
        hmac_sha256_hex(b"Jefe", b"what do ya want for nothing?"),
        "5bdcc146bf60754e6a042426089575c75a003f089d2739839dec58b964ec3843"
    );
}

#[test]
fn sign_matches_exchange_documentation_example() {
    let client = BinanceClient::new_testnet(
        "key".to_string(),
        "NhqPtmdSJYdKjVHjA7PZj4Mge3R5YNiP1e3UZjInClVN65XAbvqqM6A7H5fATj0j".to_string(),
    )
    .unwrap();
    let sig = client.sign(
        "symbol=LTCBTC&side=BUY&type=LIMIT&timeInForce=GTC&quantity=1&price=0.1&recvWindow=5000&timestamp=1499827319559",
    );
    assert_eq!(sig, "c8db56825ae71d6d79447849e617115f4a920fa2acdcab2b053c4b2838bd6b71");
    assert_eq!(sig.len(), 64);
}

#[test]
fn new_testnet_points_at_testnet() {
    let client = BinanceClient::new_testnet("abc".to_string(), "s".to_string())
        .unwrap();
    assert_eq!(client.base_url(), "https://testnet.binancefuture.com");
    assert_eq!(client.api_key(), "abc");
}

#[test]
fn timestamp_reads_the_clock_in_millis() {
    let client = BinanceClient::new_testnet("abc".to_string(), "s".to_string())
        .unwrap();
    let ts = client.timestamp().unwrap();
    assert!(ts > 1_600_000_000_000);
}

#[test]
fn reply_error_only_with_code() {
    assert_eq!(reply_error(None, "null".to_string()), None);
    assert_eq!(
        reply_error(Some("-2019".to_string()), "\"Margin is insufficient.\"".to_string()),
        Some("Binance error -2019: \"Margin is insufficient.\"".to_string())
    );
}

#[test]
fn clock_helpers() {
    assert_eq!(secs_or_zero(Ok(Duration::from_millis(1500))), 1);
    assert_eq!(millis_or_none(Ok(Duration::from_millis(1500))), Some(1500));
    assert_eq!(secs_or_zero(Ok(Duration::new(3, 999_999_999))), 3);
    assert_eq!(millis_or_none(Ok(Duration::new(3, 999_999_999))), Some(3999));
    let before = UNIX_EPOCH.duration_since(SystemTime::now());
    assert!(before.is_err());
    assert_eq!(secs_or_zero(UNIX_EPOCH.duration_since(SystemTime::now())), 0);
    assert_eq!(millis_or_none(UNIX_EPOCH.duration_since(SystemTime::now())), None);
}

#[test]
fn signed_query_appends_timestamp() {
    assert_eq!(signed_query("", 1700000000000), "timestamp=1700000000000");
    assert_eq!(
        signed_query("symbol=BTCUSDT", 42),
        "symbol=BTCUSDT&timestamp=42"
    );
}

#[test]
fn signed_url_carries_signature_last() {
    let client = BinanceClient::new_testnet("k".to_string(), "Jefe".to_string())
        .unwrap();
    let url = client.signed_url("/fapi/v2/positionRisk", "symbol=BTCUSDT", 5);
    let query = "symbol=BTCUSDT&timestamp=5";
    let expected = format!(
        "https://testnet.binancefuture.com/fapi/v2/positionRisk?{}&signature={}",
        query,
        hmac_sha256_hex(b"Jefe", query.as_bytes())
    );
    assert_eq!(url, expected);
}

#[test]
fn public_urls() {
    let client = BinanceClient::new_testnet("k".to_string(), "s".to_string())
        .unwrap();
    assert_eq!(
        client.klines_url("BTCUSDT", "15m", 400),
        "https://testnet.binancefuture.com/fapi/v1/klines?symbol=BTCUSDT&interval=15m&limit=400"
    );
    assert_eq!(
        client.ticker_url("BTCUSDT"),
        "https://testnet.binancefuture.com/fapi/v1/ticker/price?symbol=BTCUSDT"
    );
}

#[test]
fn parameter_texts() {
    assert_eq!(leverage_params("BTCUSDT", 15), "symbol=BTCUSDT&leverage=15");
    assert_eq!(order_ref_params("BTCUSDT", 987654321), "symbol=BTCUSDT&orderId=987654321");
    assert_eq!(symbol_params("BTCUSDT"), "symbol=BTCUSDT");
}

#[test]
fn order_params_full_and_minimal() {
    let full = OrderRequest {
        symbol: "BTCUSDT".to_string(),
        side: "BUY".to_string(),
        order_type: "LIMIT".to_string(),
        quantity: "0.012".to_string(),
        price: Some("64000.5".to_string()),
        stop_price: Some("63000".to_string()),
        time_in_force: Some("GTC".to_string()),
        reduce_only: Some(false),
    };
    assert_eq!(
        order_params(&full),
        "symbol=BTCUSDT&side=BUY&type=LIMIT&quantity=0.012&price=64000.5&stopPrice=63000&timeInForce=GTC&reduceOnly=false"
    );
    let minimal = OrderRequest {
        symbol: "BTCUSDT".to_string(),
        side: "SELL".to_string(),
        order_type: "MARKET".to_string(),
        quantity: "1".to_string(),
        price: None,
        stop_price: None,
        time_in_force: None,
        reduce_only: Some(true),
    };
    assert_eq!(
        order_params(&minimal),
        "symbol=BTCUSDT&side=SELL&type=MARKET&quantity=1&reduceOnly=true"
    );
}
