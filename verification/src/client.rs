use vstd::prelude::*;
use vstd::string::StringExecFns;
use crate::sign::dec_of;
use crate::sign::signature_of;
use crate::sign::sign_request;
use crate::sign::u64_to_dec;

verus! {

/// Errors surfaced to callers of the market-data client.
///
/// `TransportError` carries a description of a network-level failure,
/// `HttpStatusError` carries the non-2xx status code the exchange returned,
/// `EnvelopeError` marks a response whose outer JSON envelope has an
/// unexpected shape, and `RecordDecodeError` marks a response whose envelope
/// was fine but one of whose records does not match the expected shape.
#[derive(Debug)]
pub enum ExchangeClientError {
    TransportError(String),
    HttpStatusError(u16),
    EnvelopeError,
    RecordDecodeError,
}

/// Classifies an HTTP status code: 2xx codes are success, every other code
/// is surfaced to the caller as `HttpStatusError` with the code inside.
pub fn check_status(code: u16) -> (r: Result<(), ExchangeClientError>)
    ensures
        200 <= code < 300 ==> r is Ok,
        !(200 <= code < 300) ==> (r matches Err(ExchangeClientError::HttpStatusError(c)) && c
            == code),
{
    if 200 <= code && code < 300 {
        Ok(())
    } else {
        Err(ExchangeClientError::HttpStatusError(code))
    }
}

/// The candles endpoint path for a market, relative to the API root.
pub open spec fn candles_path_of(market: Seq<char>) -> Seq<char> {
    "/markets/"@ + market + "/candles"@
}

/// Builds the candles endpoint path `/markets/{market}/candles`.
pub fn candles_path(market: &str) -> (r: String)
    ensures
        r@ == candles_path_of(market@),
{
    let mut s = "/markets/".to_owned();
    s.append(market);
    s.append("/candles");
    s
}

/// The query pairs of a candles request: `resolution` then `limit` always,
/// then `start_time` and `end_time` exactly where the caller supplied them,
/// each value in canonical decimal. An absent bound is omitted entirely.
pub open spec fn candles_query_of(
    resolution: u32,
    limit: u32,
    start_time: Option<u64>,
    end_time: Option<u64>,
) -> Seq<(Seq<char>, Seq<char>)> {
    let base = seq![
        ("resolution"@, dec_of(resolution as int)),
        ("limit"@, dec_of(limit as int)),
    ];
    let with_start = if start_time is Some {
        base.push(("start_time"@, dec_of(start_time->Some_0 as int)))
    } else {
        base
    };
    if end_time is Some {
        with_start.push(("end_time"@, dec_of(end_time->Some_0 as int)))
    } else {
        with_start
    }
}

/// Builds the query pairs of a candles request. The optional bounds are
/// epoch timestamps at the granularity the exchange documents; where a bound
/// is `None` its key is omitted from the query entirely.
pub fn candles_query(
    resolution: u32,
    limit: u32,
    start_time: Option<u64>,
    end_time: Option<u64>,
) -> (r: Vec<(String, String)>)
    ensures
        r.deep_view() == candles_query_of(resolution, limit, start_time, end_time),
{
    let mut q: Vec<(String, String)> = Vec::new();
    q.push(("resolution".to_owned(), u64_to_dec(resolution as u64)));
    q.push(("limit".to_owned(), u64_to_dec(limit as u64)));
    if let Option::Some(st) = start_time {
        q.push(("start_time".to_owned(), u64_to_dec(st)));
    }
    if let Option::Some(et) = end_time {
        q.push(("end_time".to_owned(), u64_to_dec(et)));
    }
    proof {
        assert(q.deep_view() =~= candles_query_of(resolution, limit, start_time, end_time));
    }
    q
}

/// Everything a transport needs to issue one authenticated GET request:
/// the path relative to the API root, the query pairs (which are not
/// signed), and the three authentication header values — the API key, the
/// hex signature, and the timestamp as the exact decimal string that was
/// signed.
pub struct SignedRequest {
    pub path: String,
    pub query: Vec<(String, String)>,
    pub api_key: String,
    pub signature: String,
    pub timestamp: String,
}

/// A market-data client: holds the exchange credentials and builds
/// authenticated requests. The secret is used only as the HMAC key.
pub struct FtxClient {
    pub api_key: String,
    pub api_secret: String,
}

impl FtxClient {
    /// Takes ownership of the credentials; neither is validated locally —
    /// invalid credentials are only discovered through an authentication
    /// error from the exchange.
    pub fn new(api_key: String, api_secret: String) -> (r: Self)
        ensures
            r.api_key == api_key,
            r.api_secret == api_secret,
    {
        FtxClient { api_key, api_secret }
    }

    /// Signs the canonical `timestamp || method || path` payload with the
    /// client's secret. The digest is always 64 lowercase hex characters and
    /// is a pure function of the secret, the timestamp, the method and the
    /// path, so identical inputs always yield the identical signature.
    /// `timestamp` is the caller-supplied instant in UTC milliseconds; the
    /// same value must be sent in the timestamp header for the exchange to
    /// recompute the digest.
    pub fn generate_sign(&self, timestamp: u64, method: &str, path: &str) -> (r: String)
        ensures
            r@ == signature_of(self.api_secret@, timestamp, method@, path@),
            r@.len() == 64,
    {
        sign_request(self.api_secret.as_str(), timestamp, method, path)
    }

    /// Builds the authenticated `GET /markets` request for `timestamp`
    /// (UTC milliseconds): no query parameters, and the signature covering
    /// exactly the path `/markets`.
    pub fn markets_request(&self, timestamp: u64) -> (r: SignedRequest)
        ensures
            r.path@ == "/markets"@,
            r.query.deep_view() == Seq::<(Seq<char>, Seq<char>)>::empty(),
            r.api_key@ == self.api_key@,
            r.signature@ == signature_of(self.api_secret@, timestamp, "GET"@, "/markets"@),
            r.timestamp@ == dec_of(timestamp as int),
    {
        let r = SignedRequest {
            path: "/markets".to_owned(),
            query: Vec::new(),
            api_key: self.api_key.clone(),
            signature: self.generate_sign(timestamp, "GET", "/markets"),
            timestamp: u64_to_dec(timestamp),
        };
        proof {
            assert(r.query.deep_view() =~= Seq::<(Seq<char>, Seq<char>)>::empty());
        }
        r
    }

    /// Builds the authenticated candles request for `timestamp`
    /// (UTC milliseconds). The signature covers the path alone — the query
    /// parameters are deliberately outside the signed payload, mirroring the
    /// exchange's signing contract.
    pub fn candles_request(
        &self,
        market: &str,
        resolution: u32,
        limit: u32,
        start_time: Option<u64>,
        end_time: Option<u64>,
        timestamp: u64,
    ) -> (r: SignedRequest)
        ensures
            r.path@ == candles_path_of(market@),
            r.query.deep_view() == candles_query_of(resolution, limit, start_time, end_time),
            r.api_key@ == self.api_key@,
            r.signature@ == signature_of(
                self.api_secret@,
                timestamp,
                "GET"@,
                candles_path_of(market@),
            ),
            r.timestamp@ == dec_of(timestamp as int),
    {
        let path = candles_path(market);
        let signature = self.generate_sign(timestamp, "GET", path.as_str());
        SignedRequest {
            path,
            query: candles_query(resolution, limit, start_time, end_time),
            api_key: self.api_key.clone(),
            signature,
            timestamp: u64_to_dec(timestamp),
        }
    }
}

/// Law: the signer is deterministic across client instances — two clients
/// holding equal secrets produce the equal signature for equal timestamp,
/// method and path inputs.
pub proof fn lemma_sign_deterministic(
    c1: FtxClient,
    c2: FtxClient,
    timestamp: u64,
    method: Seq<char>,
    path: Seq<char>,
)
    requires
        c1.api_secret@ == c2.api_secret@,
    ensures
        signature_of(c1.api_secret@, timestamp, method, path) == signature_of(
            c2.api_secret@,
            timestamp,
            method,
            path,
        ),
{
}

} // verus!
