//! Errors of the Limitless client.

use vstd::prelude::*;

verus! {

/// Errors the Limitless client reports. `Http` carries the text of a
/// transport error.
#[derive(Debug, Clone)]
pub enum LimitlessError {
    Http(String),
    Api(String),
    RateLimited,
    AuthRequired,
    MarketNotFound(String),
    Auth(String),
    InvalidOrder(String),
}

} // verus!
