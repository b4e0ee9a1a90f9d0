use vstd::prelude::*;
use vstd::string::StrSliceExecFns;
use crate::client::ExchangeClientError;
use crate::json::JsonValue;
use crate::json::obj_lookup;
use crate::json::get_field;
use crate::json::json_model_of;
use crate::json::parse_json;

verus! {

/// A market listing as the exchange reports it. `name` is always present and
/// non-empty; every other field is optional, and absence is distinct from
/// zero or `false`. A numeric field holds the exchange's value as decimal
/// text, exactly as parsed, so no precision is lost. The `kind` field holds
/// the JSON `type` property (`"future"`, `"spot"`, or another
/// exchange-defined tag).
#[derive(Debug)]
pub struct FtxMarketData {
    pub name: String,
    pub ask: Option<String>,
    pub bid: Option<String>,
    pub last: Option<String>,
    pub base_currency: Option<String>,
    pub change1h: Option<String>,
    pub change24h: Option<String>,
    pub change_bod: Option<String>,
    pub enabled: Option<bool>,
    pub high_leverage_fee_exempt: Option<bool>,
    pub min_provide_size: Option<String>,
    pub post_only: Option<bool>,
    pub price: Option<String>,
    pub price_increment: Option<String>,
    pub quote_currency: Option<String>,
    pub quote_volume24h: Option<String>,
    pub restricted: Option<bool>,
    pub size_increment: Option<String>,
    pub kind: Option<String>,
    pub underlying: Option<String>,
    pub volume_usd24h: Option<String>,
}

/// The mathematical value of a market record: every text as a `Seq<char>`.
pub struct MarketDataView {
    pub name: Seq<char>,
    pub ask: Option<Seq<char>>,
    pub bid: Option<Seq<char>>,
    pub last: Option<Seq<char>>,
    pub base_currency: Option<Seq<char>>,
    pub change1h: Option<Seq<char>>,
    pub change24h: Option<Seq<char>>,
    pub change_bod: Option<Seq<char>>,
    pub enabled: Option<bool>,
    pub high_leverage_fee_exempt: Option<bool>,
    pub min_provide_size: Option<Seq<char>>,
    pub post_only: Option<bool>,
    pub price: Option<Seq<char>>,
    pub price_increment: Option<Seq<char>>,
    pub quote_currency: Option<Seq<char>>,
    pub quote_volume24h: Option<Seq<char>>,
    pub restricted: Option<bool>,
    pub size_increment: Option<Seq<char>>,
    pub kind: Option<Seq<char>>,
    pub underlying: Option<Seq<char>>,
    pub volume_usd24h: Option<Seq<char>>,
}

impl View for FtxMarketData {
    type V = MarketDataView;

    open spec fn view(&self) -> MarketDataView {
        MarketDataView {
            name: self.name@,
            ask: self.ask.deep_view(),
            bid: self.bid.deep_view(),
            last: self.last.deep_view(),
            base_currency: self.base_currency.deep_view(),
            change1h: self.change1h.deep_view(),
            change24h: self.change24h.deep_view(),
            change_bod: self.change_bod.deep_view(),
            enabled: self.enabled,
            high_leverage_fee_exempt: self.high_leverage_fee_exempt,
            min_provide_size: self.min_provide_size.deep_view(),
            post_only: self.post_only,
            price: self.price.deep_view(),
            price_increment: self.price_increment.deep_view(),
            quote_currency: self.quote_currency.deep_view(),
            quote_volume24h: self.quote_volume24h.deep_view(),
            restricted: self.restricted,
            size_increment: self.size_increment.deep_view(),
            kind: self.kind.deep_view(),
            underlying: self.underlying.deep_view(),
            volume_usd24h: self.volume_usd24h.deep_view(),
        }
    }
}

impl DeepView for FtxMarketData {
    type V = MarketDataView;

    open spec fn deep_view(&self) -> MarketDataView {
        self.view()
    }
}

/// One historical price bar. Prices and volume hold the exchange's decimal
/// text exactly as parsed; the bar's start instant is held as milliseconds
/// since the UTC epoch.
#[derive(Debug)]
pub struct FtxTradeData {
    pub close: String,
    pub high: String,
    pub low: String,
    pub open: String,
    pub volume: String,
    pub start_time_ms: i64,
}

/// The mathematical value of a candle record.
pub struct TradeDataView {
    pub close: Seq<char>,
    pub high: Seq<char>,
    pub low: Seq<char>,
    pub open: Seq<char>,
    pub volume: Seq<char>,
    pub start_time_ms: i64,
}

impl View for FtxTradeData {
    type V = TradeDataView;

    open spec fn view(&self) -> TradeDataView {
        TradeDataView {
            close: self.close@,
            high: self.high@,
            low: self.low@,
            open: self.open@,
            volume: self.volume@,
            start_time_ms: self.start_time_ms,
        }
    }
}

impl DeepView for FtxTradeData {
    type V = TradeDataView;

    open spec fn deep_view(&self) -> TradeDataView {
        self.view()
    }
}

/// How an optional numeric field decodes: `None` marks a wrong-typed field
/// (a shape mismatch), `Some(None)` an absent or null field, `Some(Some(s))`
/// a number with decimal text `s`.
pub open spec fn opt_num_of(fields: Seq<(String, JsonValue)>, key: Seq<char>) -> Option<
    Option<Seq<char>>,
> {
    match obj_lookup(fields, key) {
        Option::None => Option::Some(Option::None),
        Option::Some(JsonValue::Null) => Option::Some(Option::None),
        Option::Some(JsonValue::Num(s)) => Option::Some(Option::Some(s@)),
        Option::Some(_) => Option::None,
    }
}

/// How an optional boolean field decodes; same shape as `opt_num_of`.
pub open spec fn opt_bool_of(fields: Seq<(String, JsonValue)>, key: Seq<char>) -> Option<
    Option<bool>,
> {
    match obj_lookup(fields, key) {
        Option::None => Option::Some(Option::None),
        Option::Some(JsonValue::Null) => Option::Some(Option::None),
        Option::Some(JsonValue::Bool(b)) => Option::Some(Option::Some(b)),
        Option::Some(_) => Option::None,
    }
}

/// How an optional string field decodes; same shape as `opt_num_of`.
pub open spec fn opt_str_of(fields: Seq<(String, JsonValue)>, key: Seq<char>) -> Option<
    Option<Seq<char>>,
> {
    match obj_lookup(fields, key) {
        Option::None => Option::Some(Option::None),
        Option::Some(JsonValue::Null) => Option::Some(Option::None),
        Option::Some(JsonValue::Str(s)) => Option::Some(Option::Some(s@)),
        Option::Some(_) => Option::None,
    }
}

/// The text of a required string field, `None` where the field is absent or
/// not a string.
pub open spec fn req_str_of(fields: Seq<(String, JsonValue)>, key: Seq<char>) -> Option<
    Seq<char>,
> {
    match obj_lookup(fields, key) {
        Option::Some(JsonValue::Str(s)) => Option::Some(s@),
        _ => Option::None,
    }
}

/// The decimal text of a required numeric field, `None` where the field is
/// absent or not a number.
pub open spec fn req_num_of(fields: Seq<(String, JsonValue)>, key: Seq<char>) -> Option<
    Seq<char>,
> {
    match obj_lookup(fields, key) {
        Option::Some(JsonValue::Num(s)) => Option::Some(s@),
        _ => Option::None,
    }
}

fn take_opt_num(fields: &Vec<(String, JsonValue)>, key: &str) -> (r: Result<
    Option<String>,
    ExchangeClientError,
>)
    ensures
        match r {
            Ok(o) => opt_num_of(fields@, key@) == Option::Some(o.deep_view()),
            Err(e) => opt_num_of(fields@, key@) is None && e is RecordDecodeError,
        },
{
    match get_field(fields, key) {
        Option::None => Ok(Option::None),
        Option::Some(JsonValue::Null) => Ok(Option::None),
        Option::Some(JsonValue::Num(s)) => Ok(Option::Some(s.clone())),
        Option::Some(_) => Err(ExchangeClientError::RecordDecodeError),
    }
}

fn take_opt_bool(fields: &Vec<(String, JsonValue)>, key: &str) -> (r: Result<
    Option<bool>,
    ExchangeClientError,
>)
    ensures
        match r {
            Ok(o) => opt_bool_of(fields@, key@) == Option::Some(o),
            Err(e) => opt_bool_of(fields@, key@) is None && e is RecordDecodeError,
        },
{
    match get_field(fields, key) {
        Option::None => Ok(Option::None),
        Option::Some(JsonValue::Null) => Ok(Option::None),
        Option::Some(JsonValue::Bool(b)) => Ok(Option::Some(*b)),
        Option::Some(_) => Err(ExchangeClientError::RecordDecodeError),
    }
}

fn take_opt_str(fields: &Vec<(String, JsonValue)>, key: &str) -> (r: Result<
    Option<String>,
    ExchangeClientError,
>)
    ensures
        match r {
            Ok(o) => opt_str_of(fields@, key@) == Option::Some(o.deep_view()),
            Err(e) => opt_str_of(fields@, key@) is None && e is RecordDecodeError,
        },
{
    match get_field(fields, key) {
        Option::None => Ok(Option::None),
        Option::Some(JsonValue::Null) => Ok(Option::None),
        Option::Some(JsonValue::Str(s)) => Ok(Option::Some(s.clone())),
        Option::Some(_) => Err(ExchangeClientError::RecordDecodeError),
    }
}

fn take_req_str(fields: &Vec<(String, JsonValue)>, key: &str) -> (r: Result<
    String,
    ExchangeClientError,
>)
    ensures
        match r {
            Ok(s) => req_str_of(fields@, key@) == Option::Some(s@),
            Err(e) => req_str_of(fields@, key@) is None && e is RecordDecodeError,
        },
{
    match get_field(fields, key) {
        Option::Some(JsonValue::Str(s)) => Ok(s.clone()),
        _ => Err(ExchangeClientError::RecordDecodeError),
    }
}

fn take_req_num(fields: &Vec<(String, JsonValue)>, key: &str) -> (r: Result<
    String,
    ExchangeClientError,
>)
    ensures
        match r {
            Ok(s) => req_num_of(fields@, key@) == Option::Some(s@),
            Err(e) => req_num_of(fields@, key@) is None && e is RecordDecodeError,
        },
{
    match get_field(fields, key) {
        Option::Some(JsonValue::Num(s)) => Ok(s.clone()),
        _ => Err(ExchangeClientError::RecordDecodeError),
    }
}

/// The market record a JSON object decodes to, `None` where the object does
/// not match the expected shape: `name` must be a non-empty string and every
/// optional field, where present and non-null, must have its expected type.
pub open spec fn market_of_fields(fields: Seq<(String, JsonValue)>) -> Option<MarketDataView> {
    let name = req_str_of(fields, "name"@);
    let ask = opt_num_of(fields, "ask"@);
    let bid = opt_num_of(fields, "bid"@);
    let last = opt_num_of(fields, "last"@);
    let base_currency = opt_str_of(fields, "baseCurrency"@);
    let change1h = opt_num_of(fields, "change1h"@);
    let change24h = opt_num_of(fields, "change24h"@);
    let change_bod = opt_num_of(fields, "changeBod"@);
    let enabled = opt_bool_of(fields, "enabled"@);
    let high_leverage_fee_exempt = opt_bool_of(fields, "highLeverageFeeExempt"@);
    let min_provide_size = opt_num_of(fields, "minProvideSize"@);
    let post_only = opt_bool_of(fields, "postOnly"@);
    let price = opt_num_of(fields, "price"@);
    let price_increment = opt_num_of(fields, "priceIncrement"@);
    let quote_currency = opt_str_of(fields, "quoteCurrency"@);
    let quote_volume24h = opt_num_of(fields, "quoteVolume24h"@);
    let restricted = opt_bool_of(fields, "restricted"@);
    let size_increment = opt_num_of(fields, "sizeIncrement"@);
    let kind = opt_str_of(fields, "type"@);
    let underlying = opt_str_of(fields, "underlying"@);
    let volume_usd24h = opt_num_of(fields, "volumeUsd24h"@);
    if name is Some && name->Some_0.len() > 0 && ask is Some && bid is Some && last is Some
        && base_currency is Some && change1h is Some && change24h is Some && change_bod is Some
        && enabled is Some && high_leverage_fee_exempt is Some && min_provide_size is Some
        && post_only is Some && price is Some && price_increment is Some
        && quote_currency is Some && quote_volume24h is Some && restricted is Some
        && size_increment is Some && kind is Some && underlying is Some
        && volume_usd24h is Some {
        Option::Some(
            MarketDataView {
                name: name->Some_0,
                ask: ask->Some_0,
                bid: bid->Some_0,
                last: last->Some_0,
                base_currency: base_currency->Some_0,
                change1h: change1h->Some_0,
                change24h: change24h->Some_0,
                change_bod: change_bod->Some_0,
                enabled: enabled->Some_0,
                high_leverage_fee_exempt: high_leverage_fee_exempt->Some_0,
                min_provide_size: min_provide_size->Some_0,
                post_only: post_only->Some_0,
                price: price->Some_0,
                price_increment: price_increment->Some_0,
                quote_currency: quote_currency->Some_0,
                quote_volume24h: quote_volume24h->Some_0,
                restricted: restricted->Some_0,
                size_increment: size_increment->Some_0,
                kind: kind->Some_0,
                underlying: underlying->Some_0,
                volume_usd24h: volume_usd24h->Some_0,
            },
        )
    } else {
        Option::None
    }
}

/// The market record a JSON value decodes to: the value must be an object of
/// the shape `market_of_fields` accepts.
pub open spec fn market_of(v: JsonValue) -> Option<MarketDataView> {
    match v {
        JsonValue::Obj(fields) => market_of_fields(fields@),
        _ => Option::None,
    }
}

/// Decodes one market record. Returns the record exactly when the value has
/// the expected shape (`market_of` is `Some`), and `RecordDecodeError`
/// otherwise; a record with only `name` decodes with every optional field
/// absent, never defaulted.
#[verifier::rlimit(30)]
pub fn decode_market(v: &JsonValue) -> (r: Result<FtxMarketData, ExchangeClientError>)
    ensures
        match r {
            Ok(m) => market_of(*v) == Option::Some(m@),
            Err(e) => market_of(*v) is None && e is RecordDecodeError,
        },
{
    match v {
        JsonValue::Obj(fields) => {
            let name = match take_req_str(fields, "name") {
                Ok(s) => s,
                Err(e) => {
                    return Err(e);
                },
            };
            if name.unicode_len() == 0 {
                return Err(ExchangeClientError::RecordDecodeError);
            }
            let ask = match take_opt_num(fields, "ask") {
                Ok(o) => o,
                Err(e) => {
                    return Err(e);
                },
            };
            let bid = match take_opt_num(fields, "bid") {
                Ok(o) => o,
                Err(e) => {
                    return Err(e);
                },
            };
            let last = match take_opt_num(fields, "last") {
                Ok(o) => o,
                Err(e) => {
                    return Err(e);
                },
            };
            let base_currency = match take_opt_str(fields, "baseCurrency") {
                Ok(o) => o,
                Err(e) => {
                    return Err(e);
                },
            };
            let change1h = match take_opt_num(fields, "change1h") {
                Ok(o) => o,
                Err(e) => {
                    return Err(e);
                },
            };
            let change24h = match take_opt_num(fields, "change24h") {
                Ok(o) => o,
                Err(e) => {
                    return Err(e);
                },
            };
            let change_bod = match take_opt_num(fields, "changeBod") {
                Ok(o) => o,
                Err(e) => {
                    return Err(e);
                },
            };
            let enabled = match take_opt_bool(fields, "enabled") {
                Ok(o) => o,
                Err(e) => {
                    return Err(e);
                },
            };
            let high_leverage_fee_exempt = match take_opt_bool(fields, "highLeverageFeeExempt") {
                Ok(o) => o,
                Err(e) => {
                    return Err(e);
                },
            };
            let min_provide_size = match take_opt_num(fields, "minProvideSize") {
                Ok(o) => o,
                Err(e) => {
                    return Err(e);
                },
            };
            let post_only = match take_opt_bool(fields, "postOnly") {
                Ok(o) => o,
                Err(e) => {
                    return Err(e);
                },
            };
            let price = match take_opt_num(fields, "price") {
                Ok(o) => o,
                Err(e) => {
                    return Err(e);
                },
            };
            let price_increment = match take_opt_num(fields, "priceIncrement") {
                Ok(o) => o,
                Err(e) => {
                    return Err(e);
                },
            };
            let quote_currency = match take_opt_str(fields, "quoteCurrency") {
                Ok(o) => o,
                Err(e) => {
                    return Err(e);
                },
            };
            let quote_volume24h = match take_opt_num(fields, "quoteVolume24h") {
                Ok(o) => o,
                Err(e) => {
                    return Err(e);
                },
            };
            let restricted = match take_opt_bool(fields, "restricted") {
                Ok(o) => o,
                Err(e) => {
                    return Err(e);
                },
            };
            let size_increment = match take_opt_num(fields, "sizeIncrement") {
                Ok(o) => o,
                Err(e) => {
                    return Err(e);
                },
            };
            let kind = match take_opt_str(fields, "type") {
                Ok(o) => o,
                Err(e) => {
                    return Err(e);
                },
            };
            let underlying = match take_opt_str(fields, "underlying") {
                Ok(o) => o,
                Err(e) => {
                    return Err(e);
                },
            };
            let volume_usd24h = match take_opt_num(fields, "volumeUsd24h") {
                Ok(o) => o,
                Err(e) => {
                    return Err(e);
                },
            };
            Ok(
                FtxMarketData {
                    name,
                    ask,
                    bid,
                    last,
                    base_currency,
                    change1h,
                    change24h,
                    change_bod,
                    enabled,
                    high_leverage_fee_exempt,
                    min_provide_size,
                    post_only,
                    price,
                    price_increment,
                    quote_currency,
                    quote_volume24h,
                    restricted,
                    size_increment,
                    kind,
                    underlying,
                    volume_usd24h,
                },
            )
        },
        _ => Err(ExchangeClientError::RecordDecodeError),
    }
}

/// Law: a market object that carries a non-empty string `name` and none of
/// the optional fields decodes to a record with only `name` populated —
/// every optional field is absent, never defaulted to zero or `false`.
pub proof fn lemma_market_only_name(fields: Seq<(String, JsonValue)>, name: Seq<char>)
    requires
        req_str_of(fields, "name"@) == Option::Some(name),
        name.len() > 0,
        obj_lookup(fields, "ask"@) is None,
        obj_lookup(fields, "bid"@) is None,
        obj_lookup(fields, "last"@) is None,
        obj_lookup(fields, "baseCurrency"@) is None,
        obj_lookup(fields, "change1h"@) is None,
        obj_lookup(fields, "change24h"@) is None,
        obj_lookup(fields, "changeBod"@) is None,
        obj_lookup(fields, "enabled"@) is None,
        obj_lookup(fields, "highLeverageFeeExempt"@) is None,
        obj_lookup(fields, "minProvideSize"@) is None,
        obj_lookup(fields, "postOnly"@) is None,
        obj_lookup(fields, "price"@) is None,
        obj_lookup(fields, "priceIncrement"@) is None,
        obj_lookup(fields, "quoteCurrency"@) is None,
        obj_lookup(fields, "quoteVolume24h"@) is None,
        obj_lookup(fields, "restricted"@) is None,
        obj_lookup(fields, "sizeIncrement"@) is None,
        obj_lookup(fields, "type"@) is None,
        obj_lookup(fields, "underlying"@) is None,
        obj_lookup(fields, "volumeUsd24h"@) is None,
    ensures
        market_of_fields(fields) == Option::Some(
            MarketDataView {
                name,
                ask: Option::None,
                bid: Option::None,
                last: Option::None,
                base_currency: Option::None,
                change1h: Option::None,
                change24h: Option::None,
                change_bod: Option::None,
                enabled: Option::None,
                high_leverage_fee_exempt: Option::None,
                min_provide_size: Option::None,
                post_only: Option::None,
                price: Option::None,
                price_increment: Option::None,
                quote_currency: Option::None,
                quote_volume24h: Option::None,
                restricted: Option::None,
                size_increment: Option::None,
                kind: Option::None,
                underlying: Option::None,
                volume_usd24h: Option::None,
            },
        ),
{
}

/// Law: one malformed element fails the whole batch — where any element of
/// a record array does not decode as a market, the array as a whole is not
/// accepted (there is no partial success).
pub proof fn lemma_batch_fails_on_malformed(a: Seq<JsonValue>, j: int)
    requires
        0 <= j < a.len(),
        market_of(a[j]) is None,
    ensures
        !all_markets_ok(a),
{
}

/// Names the millisecond UTC epoch instant an RFC 3339 timestamp text
/// denotes, `None` where the text is not a valid RFC 3339 timestamp; the
/// instant depends on the text alone.
pub uninterp spec fn rfc3339_millis_of(s: Seq<char>) -> Option<i64>;

/// Relies on `chrono::DateTime::parse_from_rfc3339` and
/// `chrono::DateTime::timestamp_millis`: whether a text is a valid RFC 3339
/// timestamp, and the epoch instant it denotes, are pure functions of the
/// text (the parsed offset is the one written in the text).
#[verifier::external_body]
pub(crate) fn parse_rfc3339_millis(s: &str) -> (r: Option<i64>)
    ensures
        r == rfc3339_millis_of(s@),
{
    match chrono::DateTime::parse_from_rfc3339(s) {
        Ok(d) => Some(d.timestamp_millis()),
        Err(_) => None,
    }
}

/// The candle a JSON value decodes to, `None` where the value is not an
/// object with numeric `close`, `high`, `low`, `open` and `volume` fields
/// and a `startTime` field holding a valid RFC 3339 timestamp.
pub open spec fn candle_of(v: JsonValue) -> Option<TradeDataView> {
    match v {
        JsonValue::Obj(f) => {
            let close = req_num_of(f@, "close"@);
            let high = req_num_of(f@, "high"@);
            let low = req_num_of(f@, "low"@);
            let open = req_num_of(f@, "open"@);
            let volume = req_num_of(f@, "volume"@);
            let start = req_str_of(f@, "startTime"@);
            if close is Some && high is Some && low is Some && open is Some && volume is Some
                && start is Some && rfc3339_millis_of(start->Some_0) is Some {
                Option::Some(
                    TradeDataView {
                        close: close->Some_0,
                        high: high->Some_0,
                        low: low->Some_0,
                        open: open->Some_0,
                        volume: volume->Some_0,
                        start_time_ms: rfc3339_millis_of(start->Some_0)->Some_0,
                    },
                )
            } else {
                Option::None
            }
        },
        _ => Option::None,
    }
}

/// Decodes one candle record. Returns the candle exactly when the value has
/// the expected shape (`candle_of` is `Some`), and `RecordDecodeError`
/// otherwise. The price and volume texts are returned exactly as they stand
/// in the document.
pub fn decode_candle(v: &JsonValue) -> (r: Result<FtxTradeData, ExchangeClientError>)
    ensures
        match r {
            Ok(c) => candle_of(*v) == Option::Some(c@),
            Err(e) => candle_of(*v) is None && e is RecordDecodeError,
        },
{
    match v {
        JsonValue::Obj(fields) => {
            let close = match take_req_num(fields, "close") {
                Ok(s) => s,
                Err(e) => {
                    return Err(e);
                },
            };
            let high = match take_req_num(fields, "high") {
                Ok(s) => s,
                Err(e) => {
                    return Err(e);
                },
            };
            let low = match take_req_num(fields, "low") {
                Ok(s) => s,
                Err(e) => {
                    return Err(e);
                },
            };
            let open = match take_req_num(fields, "open") {
                Ok(s) => s,
                Err(e) => {
                    return Err(e);
                },
            };
            let volume = match take_req_num(fields, "volume") {
                Ok(s) => s,
                Err(e) => {
                    return Err(e);
                },
            };
            let start = match take_req_str(fields, "startTime") {
                Ok(s) => s,
                Err(e) => {
                    return Err(e);
                },
            };
            let start_time_ms = match parse_rfc3339_millis(start.as_str()) {
                Option::Some(ms) => ms,
                Option::None => {
                    return Err(ExchangeClientError::RecordDecodeError);
                },
            };
            Ok(FtxTradeData { close, high, low, open, volume, start_time_ms })
        },
        _ => Err(ExchangeClientError::RecordDecodeError),
    }
}

/// The record array inside a response envelope, `None` where the envelope
/// has an unexpected shape: the response must be a JSON object, must not
/// carry `"success": false`, and must hold a `result` field holding an
/// array.
pub open spec fn envelope_result_of(v: JsonValue) -> Option<Seq<JsonValue>> {
    match v {
        JsonValue::Obj(fields) => {
            if obj_lookup(fields@, "success"@) == Option::Some(JsonValue::Bool(false)) {
                Option::None
            } else {
                match obj_lookup(fields@, "result"@) {
                    Option::Some(JsonValue::Arr(a)) => Option::Some(a@),
                    _ => Option::None,
                }
            }
        },
        _ => Option::None,
    }
}

/// Unwraps a response envelope. Returns the record array exactly when the
/// envelope has the expected shape (`envelope_result_of` is `Some`), and
/// `EnvelopeError` otherwise — in particular on `"success": false` and on a
/// missing or non-array `result` field.
pub fn envelope_result<'a>(v: &'a JsonValue) -> (r: Result<
    &'a Vec<JsonValue>,
    ExchangeClientError,
>)
    ensures
        match r {
            Ok(a) => envelope_result_of(*v) == Option::Some(a@),
            Err(e) => envelope_result_of(*v) is None && e is EnvelopeError,
        },
{
    match v {
        JsonValue::Obj(fields) => {
            match get_field(fields, "success") {
                Option::Some(JsonValue::Bool(b)) => {
                    if !*b {
                        return Err(ExchangeClientError::EnvelopeError);
                    }
                },
                _ => {},
            }
            match get_field(fields, "result") {
                Option::Some(JsonValue::Arr(a)) => Ok(a),
                _ => Err(ExchangeClientError::EnvelopeError),
            }
        },
        _ => Err(ExchangeClientError::EnvelopeError),
    }
}

/// Every element of `a` decodes as a market record.
pub open spec fn all_markets_ok(a: Seq<JsonValue>) -> bool {
    forall|i: int| 0 <= i < a.len() ==> market_of(a[i]) is Some
}

/// The decoded market records of `a`, element by element, in order.
pub open spec fn market_views_of(a: Seq<JsonValue>) -> Seq<MarketDataView> {
    Seq::new(a.len(), |i: int| market_of(a[i])->Some_0)
}

/// Every element of `a` decodes as a candle record.
pub open spec fn all_candles_ok(a: Seq<JsonValue>) -> bool {
    forall|i: int| 0 <= i < a.len() ==> candle_of(a[i]) is Some
}

/// The decoded candle records of `a`, element by element, in order.
pub open spec fn candle_views_of(a: Seq<JsonValue>) -> Seq<TradeDataView> {
    Seq::new(a.len(), |i: int| candle_of(a[i])->Some_0)
}

/// Decodes a `/markets` response body into market records, in the order the
/// exchange returned them.
///
/// Returns the records exactly when the body is valid JSON, the envelope has
/// the expected shape, and every element of `result` decodes; returns
/// `EnvelopeError` where the body is not valid JSON or the envelope is
/// malformed, and `RecordDecodeError` where the envelope is fine but some
/// record is malformed (the whole batch fails, never a partial result).
pub fn decode_markets_response(body: &str) -> (r: Result<Vec<FtxMarketData>, ExchangeClientError>)
    ensures
        match r {
            Ok(ms) => {
                &&& json_model_of(body@) matches Option::Some(doc)
                &&& envelope_result_of(doc) matches Option::Some(a)
                &&& all_markets_ok(a)
                &&& ms.deep_view() == market_views_of(a)
            },
            Err(e) => match e {
                ExchangeClientError::EnvelopeError => {
                    ||| json_model_of(body@) is None
                    ||| (json_model_of(body@) matches Option::Some(doc) && envelope_result_of(doc)
                        is None)
                },
                ExchangeClientError::RecordDecodeError => {
                    &&& json_model_of(body@) matches Option::Some(doc)
                    &&& envelope_result_of(doc) matches Option::Some(a)
                    &&& !all_markets_ok(a)
                },
                _ => false,
            },
        },
{
    let doc = match parse_json(body) {
        Option::Some(d) => d,
        Option::None => {
            return Err(ExchangeClientError::EnvelopeError);
        },
    };
    let arr = match envelope_result(&doc) {
        Ok(a) => a,
        Err(e) => {
            return Err(e);
        },
    };
    let mut out: Vec<FtxMarketData> = Vec::new();
    let mut i: usize = 0;
    while i < arr.len()
        invariant
            json_model_of(body@) == Option::Some(doc),
            envelope_result_of(doc) == Option::Some(arr@),
            i <= arr@.len(),
            out@.len() == i,
            forall|j: int| 0 <= j < i ==> market_of(arr@[j]) == Option::Some(out@[j]@),
        decreases arr@.len() - i,
    {
        let m = match decode_market(&arr[i]) {
            Ok(m) => m,
            Err(e) => {
                proof {
                    assert(market_of(arr@[i as int]) is None);
                    assert(!all_markets_ok(arr@));
                }
                return Err(e);
            },
        };
        out.push(m);
        i = i + 1;
    }
    proof {
        assert(out.deep_view() =~= market_views_of(arr@));
    }
    Ok(out)
}

/// The record a name maps to in a retrieval batch, under map semantics:
/// the last record carrying that name (last write wins where the exchange
/// ever repeats a name), `None` where no record carries it.
pub open spec fn market_lookup(ms: Seq<FtxMarketData>, name: Seq<char>) -> Option<FtxMarketData>
    decreases ms.len(),
{
    if ms.len() == 0 {
        Option::None
    } else if ms.last().name@ == name {
        Option::Some(ms.last())
    } else {
        market_lookup(ms.drop_last(), name)
    }
}

/// Looks a market up by its name, the batch's primary key: where the
/// exchange ever repeats a name, the last record wins, as it would in a map
/// rebuilt record by record.
pub fn find_market<'a>(markets: &'a Vec<FtxMarketData>, name: &str) -> (r: Option<
    &'a FtxMarketData,
>)
    ensures
        match r {
            Some(m) => market_lookup(markets@, name@) == Option::Some(*m),
            None => market_lookup(markets@, name@) is None,
        },
{
    let key = name.to_owned();
    let mut i: usize = markets.len();
    proof {
        assert(markets@.take(i as int) =~= markets@);
    }
    while i > 0
        invariant
            i <= markets@.len(),
            key@ == name@,
            market_lookup(markets@, name@) == market_lookup(markets@.take(i as int), name@),
        decreases i,
    {
        i = i - 1;
        proof {
            assert(markets@.take(i as int + 1).last() == markets@[i as int]);
            assert(markets@.take(i as int + 1).drop_last() =~= markets@.take(i as int));
        }
        if markets[i].name == key {
            return Some(&markets[i]);
        }
    }
    None
}

/// Decodes a candles response body into candle records, preserving the
/// exchange-returned order.
///
/// Same envelope and failure semantics as `decode_markets_response`, with
/// each record decoded as a candle.
pub fn decode_candles_response(body: &str) -> (r: Result<Vec<FtxTradeData>, ExchangeClientError>)
    ensures
        match r {
            Ok(cs) => {
                &&& json_model_of(body@) matches Option::Some(doc)
                &&& envelope_result_of(doc) matches Option::Some(a)
                &&& all_candles_ok(a)
                &&& cs.deep_view() == candle_views_of(a)
            },
            Err(e) => match e {
                ExchangeClientError::EnvelopeError => {
                    ||| json_model_of(body@) is None
                    ||| (json_model_of(body@) matches Option::Some(doc) && envelope_result_of(doc)
                        is None)
                },
                ExchangeClientError::RecordDecodeError => {
                    &&& json_model_of(body@) matches Option::Some(doc)
                    &&& envelope_result_of(doc) matches Option::Some(a)
                    &&& !all_candles_ok(a)
                },
                _ => false,
            },
        },
{
    let doc = match parse_json(body) {
        Option::Some(d) => d,
        Option::None => {
            return Err(ExchangeClientError::EnvelopeError);
        },
    };
    let arr = match envelope_result(&doc) {
        Ok(a) => a,
        Err(e) => {
            return Err(e);
        },
    };
    let mut out: Vec<FtxTradeData> = Vec::new();
    let mut i: usize = 0;
    while i < arr.len()
        invariant
            json_model_of(body@) == Option::Some(doc),
            envelope_result_of(doc) == Option::Some(arr@),
            i <= arr@.len(),
            out@.len() == i,
            forall|j: int| 0 <= j < i ==> candle_of(arr@[j]) == Option::Some(out@[j]@),
        decreases arr@.len() - i,
    {
        let c = match decode_candle(&arr[i]) {
            Ok(c) => c,
            Err(e) => {
                proof {
                    assert(candle_of(arr@[i as int]) is None);
                    assert(!all_candles_ok(arr@));
                }
                return Err(e);
            },
        };
        out.push(c);
        i = i + 1;
    }
    proof {
        assert(out.deep_view() =~= candle_views_of(arr@));
    }
    Ok(out)
}

} // verus!
