//! Client library for an exchange's authenticated market-data REST API.
//!
//! The library owns the request-signing and response-decoding pipeline:
//! building canonical signing payloads and their HMAC-SHA256 hex digests,
//! building endpoint paths and query strings, and decoding the exchange's
//! JSON envelopes into typed market and candle records or structured errors.
//! The HTTP round trip itself is left to the caller.

pub mod client;
pub mod decode;
pub mod json;
pub mod sign;
