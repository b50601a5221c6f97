//! Errors of the Kalshi client.

use vstd::prelude::*;

verus! {

/// Errors the Kalshi client reports. `Http` carries the text of a
/// transport error.
#[derive(Debug, Clone)]
pub enum KalshiError {
    Http(String),
    Api(String),
    RateLimited,
    AuthRequired,
    AuthFailed(String),
    MarketNotFound(String),
    InsufficientBalance(String),
    OrderRejected(String),
    InvalidOrder(String),
}

} // verus!
