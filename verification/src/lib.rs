//! Payment-method plugin core for a ledger host SDK.
//!
//! The host loads the plugin and dispatches payment calls for the
//! `pay:sov:` method prefix into a fixed set of entry points.  This
//! crate holds the verified core of those entry points: the payment
//! address codec, identifier validation, the JSON request model with
//! its envelope builders, and the decision logic of each handler.
//! The C ABI shell around it lives outside the library and hands the
//! core plain values.

pub mod address;
pub mod envelope;
pub mod errors;
pub mod handlers;
pub mod json;
pub mod parse;
pub mod requests;
mod strutil;
pub mod validation;
