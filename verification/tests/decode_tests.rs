use ftx_client::client::ExchangeClientError;
use ftx_client::decode::decode_candles_response;
use ftx_client::decode::decode_markets_response;
use ftx_client::decode::find_market;

#[test]
fn test_get_markets() {
    let markets_json = r#"
        {
            "result":[
            {
                "ask":4.0362,
                "baseCurrency":null,
                "bid":4.0334,
                "change1h":0.015500754906894816,
                "change24h":-0.02625229224978284,
                "changeBod":-0.04503182753969569,
                "enabled":true,
                "highLeverageFeeExempt":false,
                "last":4.0356,
                "minProvideSize":1.0,
                "name":"1INCH-PERP",
                "postOnly":false,
                "price":4.0356,
                "priceIncrement":0.0001,
                "quoteCurrency":null,
                "quoteVolume24h":24249905.4525,
                "restricted":false,
                "sizeIncrement":1.0,
                "type":"future",
                "underlying":"1INCH",
                "volumeUsd24h":24249905.4525
            }],
            "success": true
        }"#;

    let markets = decode_markets_response(markets_json).expect("well-formed response");
    assert_eq!(markets.len(), 1);
    let m = &markets[0];
    assert_eq!(m.name, "1INCH-PERP");
    assert_eq!(m.ask.as_deref(), Some("4.0362"));
    assert_eq!(m.bid.as_deref(), Some("4.0334"));
    assert_eq!(m.last.as_deref(), Some("4.0356"));
    assert_eq!(m.base_currency, None);
    assert_eq!(m.quote_currency, None);
    assert_eq!(m.change1h.as_deref(), Some("0.015500754906894816"));
    assert_eq!(m.change24h.as_deref(), Some("-0.02625229224978284"));
    assert_eq!(m.change_bod.as_deref(), Some("-0.04503182753969569"));
    assert_eq!(m.enabled, Some(true));
    assert_eq!(m.high_leverage_fee_exempt, Some(false));
    assert_eq!(m.min_provide_size.as_deref(), Some("1.0"));
    assert_eq!(m.post_only, Some(false));
    assert_eq!(m.price.as_deref(), Some("4.0356"));
    assert_eq!(m.price_increment.as_deref(), Some("0.0001"));
    assert_eq!(m.quote_volume24h.as_deref(), Some("24249905.4525"));
    assert_eq!(m.restricted, Some(false));
    assert_eq!(m.size_increment.as_deref(), Some("1.0"));
    assert_eq!(m.kind.as_deref(), Some("future"));
    assert_eq!(m.underlying.as_deref(), Some("1INCH"));
    assert_eq!(m.volume_usd24h.as_deref(), Some("24249905.4525"));
}

#[test]
fn test_market_with_only_name_leaves_optionals_absent() {
    let body = r#"{"result":[{"name":"BTC-PERP"}],"success":true}"#;
    let markets = decode_markets_response(body).expect("only name is required");
    assert_eq!(markets.len(), 1);
    let m = &markets[0];
    assert_eq!(m.name, "BTC-PERP");
    assert_eq!(m.ask, None);
    assert_eq!(m.bid, None);
    assert_eq!(m.last, None);
    assert_eq!(m.base_currency, None);
    assert_eq!(m.change1h, None);
    assert_eq!(m.change24h, None);
    assert_eq!(m.change_bod, None);
    assert_eq!(m.enabled, None);
    assert_eq!(m.high_leverage_fee_exempt, None);
    assert_eq!(m.min_provide_size, None);
    assert_eq!(m.post_only, None);
    assert_eq!(m.price, None);
    assert_eq!(m.price_increment, None);
    assert_eq!(m.quote_currency, None);
    assert_eq!(m.quote_volume24h, None);
    assert_eq!(m.restricted, None);
    assert_eq!(m.size_increment, None);
    assert_eq!(m.kind, None);
    assert_eq!(m.underlying, None);
    assert_eq!(m.volume_usd24h, None);
}

#[test]
fn test_one_malformed_record_fails_the_batch() {
    let body = r#"{"result":[{"name":"GOOD-PERP"},{"ask":1.5}],"success":true}"#;
    assert!(matches!(
        decode_markets_response(body),
        Err(ExchangeClientError::RecordDecodeError)
    ));
}

#[test]
fn test_wrong_typed_optional_field_is_an_error() {
    let body = r#"{"result":[{"name":"X","ask":"not a number"}],"success":true}"#;
    assert!(matches!(
        decode_markets_response(body),
        Err(ExchangeClientError::RecordDecodeError)
    ));
}

#[test]
fn test_empty_name_is_an_error() {
    let body = r#"{"result":[{"name":""}],"success":true}"#;
    assert!(matches!(
        decode_markets_response(body),
        Err(ExchangeClientError::RecordDecodeError)
    ));
}

#[test]
fn test_null_result_is_envelope_error() {
    let body = r#"{"result":null,"success":true}"#;
    assert!(matches!(
        decode_markets_response(body),
        Err(ExchangeClientError::EnvelopeError)
    ));
}

#[test]
fn test_success_false_without_result_is_envelope_error() {
    let body = r#"{"success": false}"#;
    assert!(matches!(
        decode_markets_response(body),
        Err(ExchangeClientError::EnvelopeError)
    ));
    assert!(matches!(
        decode_candles_response(body),
        Err(ExchangeClientError::EnvelopeError)
    ));
}

#[test]
fn test_success_false_wins_over_result() {
    let body = r#"{"result":[],"success":false}"#;
    assert!(matches!(
        decode_markets_response(body),
        Err(ExchangeClientError::EnvelopeError)
    ));
}

#[test]
fn test_missing_result_and_non_array_result() {
    assert!(matches!(
        decode_markets_response(r#"{"success":true}"#),
        Err(ExchangeClientError::EnvelopeError)
    ));
    assert!(matches!(
        decode_markets_response(r#"{"result":5,"success":true}"#),
        Err(ExchangeClientError::EnvelopeError)
    ));
    assert!(matches!(
        decode_markets_response("[1,2,3]"),
        Err(ExchangeClientError::EnvelopeError)
    ));
}

#[test]
fn test_invalid_json_is_envelope_error() {
    assert!(matches!(
        decode_markets_response("this is not json"),
        Err(ExchangeClientError::EnvelopeError)
    ));
}

#[test]
fn test_candle_round_trips_values_exactly() {
    let body = r#"{
        "result":[
            {"open":10, "high":12, "low":9, "close":11, "volume":100,
             "startTime":"2021-01-01T00:00:00+00:00"}
        ],
        "success":true
    }"#;
    let candles = decode_candles_response(body).expect("well-formed candle");
    assert_eq!(candles.len(), 1);
    let c = &candles[0];
    assert_eq!(c.open.parse::<f64>().unwrap(), 10.0);
    assert_eq!(c.high.parse::<f64>().unwrap(), 12.0);
    assert_eq!(c.low.parse::<f64>().unwrap(), 9.0);
    assert_eq!(c.close.parse::<f64>().unwrap(), 11.0);
    assert_eq!(c.volume.parse::<f64>().unwrap(), 100.0);
    assert_eq!(c.start_time_ms, 1609459200000);
}

#[test]
fn test_candle_fractional_prices_keep_precision() {
    let body = r#"{
        "result":[
            {"open":4.0362, "high":4.04, "low":4.0001, "close":4.0356,
             "volume":24249905.4525, "startTime":"2021-06-01T12:30:00-05:00"}
        ],
        "success":true
    }"#;
    let candles = decode_candles_response(body).expect("well-formed candle");
    let c = &candles[0];
    assert_eq!(c.open, "4.0362");
    assert_eq!(c.high, "4.04");
    assert_eq!(c.low, "4.0001");
    assert_eq!(c.close, "4.0356");
    assert_eq!(c.volume, "24249905.4525");
    // 2021-06-01T17:30:00Z in milliseconds.
    assert_eq!(c.start_time_ms, 1622568600000);
}

#[test]
fn test_candle_bad_start_time_is_record_error() {
    let body = r#"{
        "result":[
            {"open":1, "high":1, "low":1, "close":1, "volume":0,
             "startTime":"yesterday"}
        ],
        "success":true
    }"#;
    assert!(matches!(
        decode_candles_response(body),
        Err(ExchangeClientError::RecordDecodeError)
    ));
}

#[test]
fn test_candle_missing_required_field_is_record_error() {
    let body = r#"{
        "result":[
            {"open":1, "high":1, "low":1, "close":1,
             "startTime":"2021-01-01T00:00:00+00:00"}
        ],
        "success":true
    }"#;
    assert!(matches!(
        decode_candles_response(body),
        Err(ExchangeClientError::RecordDecodeError)
    ));
}

#[test]
fn test_find_market_last_write_wins() {
    let body = r#"{"result":[
        {"name":"BTC-PERP","ask":1.0},
        {"name":"ETH-PERP"},
        {"name":"BTC-PERP","ask":2.0}
    ],"success":true}"#;
    let markets = decode_markets_response(body).expect("well-formed response");
    assert_eq!(markets.len(), 3);
    let btc = find_market(&markets, "BTC-PERP").expect("present");
    assert_eq!(btc.ask.as_deref(), Some("2.0"));
    assert!(find_market(&markets, "ETH-PERP").is_some());
    assert!(find_market(&markets, "SOL-PERP").is_none());
}

#[test]
fn test_decode_preserves_exchange_order() {
    let body = r#"{"result":[{"name":"A-PERP"},{"name":"B-PERP"},{"name":"C-PERP"}],"success":true}"#;
    let markets = decode_markets_response(body).expect("well-formed response");
    let names: Vec<&str> = markets.iter().map(|m| m.name.as_str()).collect();
    assert_eq!(names, vec!["A-PERP", "B-PERP", "C-PERP"]);
}
