//! The exchange-neutral errors the unified trading interface reports.

use vstd::prelude::*;

verus! {

/// An error an exchange reported or an order broke a venue rule.
#[derive(Debug, Clone)]
pub enum ExchangeError {
    MarketNotFound(String),
    InvalidOrder(String),
    OrderRejected(String),
    Authentication(String),
    Api(String),
}

/// An error of the unified interface: one from the exchange, or a request
/// that cannot be served as given.
#[derive(Debug, Clone)]
pub enum OpenPxError {
    Exchange(ExchangeError),
    InvalidInput(String),
}

} // verus!
