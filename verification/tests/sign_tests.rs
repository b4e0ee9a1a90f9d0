use ftx_client::client::ExchangeClientError;
use ftx_client::client::FtxClient;
use ftx_client::client::candles_query;
use ftx_client::client::check_status;
use ftx_client::sign::hex_encode;
use ftx_client::sign::u64_to_dec;

fn independent_hmac_hex(secret: &str, payload: &str) -> String {
    let mut mac = <hmac::Hmac<sha2::Sha256> as hmac::KeyInit>::new_from_slice(secret.as_bytes())
        .expect("HMAC accepts keys of any length");
    hmac::Mac::update(&mut mac, payload.as_bytes());
    hmac::Mac::finalize(mac)
        .into_bytes()
        .iter()
        .map(|b| format!("{:02x}", b))
        .collect()
}

#[test]
fn test_sign_matches_independent_hmac() {
    let client = FtxClient::new("api-key".to_string(), "api-secret".to_string());
    let ts: u64 = 1588591511721;
    let sig = client.generate_sign(ts, "GET", "/markets");
    let payload = format!("{}{}{}", ts, "GET", "/markets");
    assert_eq!(sig, independent_hmac_hex("api-secret", &payload));
}

#[test]
fn test_sign_deterministic_and_64_hex() {
    let client = FtxClient::new("k".to_string(), "s".to_string());
    let a = client.generate_sign(7, "GET", "/markets");
    let b = client.generate_sign(7, "GET", "/markets");
    assert_eq!(a, b);
    assert_eq!(a.len(), 64);
    assert!(a.chars().all(|c| c.is_ascii_hexdigit() && !c.is_ascii_uppercase()));
}

#[test]
fn test_sign_avalanche() {
    let client = FtxClient::new("k".to_string(), "s".to_string());
    let base = client.generate_sign(1000, "GET", "/markets");
    assert_ne!(base, client.generate_sign(1001, "GET", "/markets"));
    assert_ne!(base, client.generate_sign(1000, "PUT", "/markets"));
    assert_ne!(base, client.generate_sign(1000, "GET", "/market"));
}

#[test]
fn test_u64_to_dec_exact() {
    assert_eq!(u64_to_dec(0), "0");
    assert_eq!(u64_to_dec(7), "7");
    assert_eq!(u64_to_dec(10), "10");
    assert_eq!(u64_to_dec(1234567890), "1234567890");
    assert_eq!(u64_to_dec(u64::MAX), "18446744073709551615");
}

#[test]
fn test_hex_encode_exact() {
    assert_eq!(hex_encode(&Vec::<u8>::new()), "");
    assert_eq!(hex_encode(&vec![0x00, 0xff, 0x1a]), "00ff1a");
    assert_eq!(hex_encode(&vec![0xde, 0xad, 0xbe, 0xef]), "deadbeef");
}

#[test]
fn test_check_status() {
    assert!(check_status(200).is_ok());
    assert!(check_status(299).is_ok());
    assert!(matches!(
        check_status(404),
        Err(ExchangeClientError::HttpStatusError(404))
    ));
    assert!(matches!(
        check_status(500),
        Err(ExchangeClientError::HttpStatusError(500))
    ));
    assert!(check_status(300).is_err());
}

#[test]
fn test_candles_query_omits_absent_bounds() {
    let q = candles_query(300, 264, None, None);
    assert_eq!(
        q,
        vec![
            ("resolution".to_string(), "300".to_string()),
            ("limit".to_string(), "264".to_string()),
        ]
    );
}

#[test]
fn test_candles_query_includes_given_bounds() {
    let q = candles_query(300, 264, Some(1609459200), Some(1609545600));
    assert_eq!(
        q,
        vec![
            ("resolution".to_string(), "300".to_string()),
            ("limit".to_string(), "264".to_string()),
            ("start_time".to_string(), "1609459200".to_string()),
            ("end_time".to_string(), "1609545600".to_string()),
        ]
    );
}

#[test]
fn test_markets_request_shape() {
    let client = FtxClient::new("api-key".to_string(), "api-secret".to_string());
    let req = client.markets_request(1588591511721);
    assert_eq!(req.path, "/markets");
    assert!(req.query.is_empty());
    assert_eq!(req.api_key, "api-key");
    assert_eq!(req.timestamp, "1588591511721");
    assert_eq!(
        req.signature,
        independent_hmac_hex("api-secret", "1588591511721GET/markets")
    );
}

#[test]
fn test_candles_request_signs_path_only() {
    let client = FtxClient::new("api-key".to_string(), "api-secret".to_string());
    let req = client.candles_request("BTC-PERP", 300, 264, None, None, 1588591511721);
    assert_eq!(req.path, "/markets/BTC-PERP/candles");
    assert_eq!(req.query.len(), 2);
    assert_eq!(req.timestamp, "1588591511721");
    // The signature covers the path alone, never the query string.
    assert_eq!(
        req.signature,
        independent_hmac_hex("api-secret", "1588591511721GET/markets/BTC-PERP/candles")
    );
    let with_bounds = client.candles_request(
        "BTC-PERP",
        300,
        264,
        Some(1609459200),
        Some(1609545600),
        1588591511721,
    );
    assert_eq!(with_bounds.signature, req.signature);
}
