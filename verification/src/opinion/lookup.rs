//! Looking up one Opinion market: the binary endpoint first, the
//! categorical endpoint when the binary one does not give a market.

use vstd::prelude::*;
use vstd::string::*;

use crate::errors::{ExchangeError, OpenPxError};
use crate::json::Json;
use crate::opinion::api::{ApiEnvelope, OpinionError};
use crate::opinion::fields::{pick4, then_id};
use crate::opinion::market::{is_opinion_market, parse_market, OpinionMarket};
use crate::text::concat;

verus! {

/// The request of the binary market `market_id`.
pub fn binary_market_endpoint(market_id: &str) -> (r: String)
    ensures
        r@ == "/openapi/market/"@ + market_id@,
{
    proof {
        reveal_strlit("/openapi/market/");
    }
    concat("/openapi/market/", market_id)
}

/// The request of the categorical market `market_id`.
pub fn categorical_market_endpoint(market_id: &str) -> (r: String)
    ensures
        r@ == "/openapi/market/categorical/"@ + market_id@,
{
    proof {
        reveal_strlit("/openapi/market/categorical/");
    }
    concat("/openapi/market/categorical/", market_id)
}

/// Whether a reply's data is a market (has an id under one of its keys).
pub open spec fn is_market_data(data: Option<&Json>) -> bool {
    match data {
        Some(d) => then_id(pick4(*d, "marketId"@, "market_id"@, "topic_id"@, "id"@)) is Some,
        None => false,
    }
}

/// What the binary lookup leads to.
pub enum BinaryLookup {
    /// The market.
    Found(OpinionMarket),
    /// An error the categorical endpoint would meet too.
    Fail(OpinionError),
    /// Ask the categorical endpoint.
    Categorical,
}

/// Decides after the binary lookup: a successful reply whose data is a
/// market gives it; a rate limit or a missing authentication ends the
/// lookup; anything else (another error, a non-zero code, data that is no
/// market) falls back to the categorical endpoint.
pub fn binary_lookup(reply: Result<&ApiEnvelope, &OpinionError>, chain_id: u64) -> (r: BinaryLookup)
    ensures
        match reply {
            Ok(env) => if env.code == 0 && is_market_data(env.data) {
                r matches BinaryLookup::Found(m) && is_opinion_market(m, *env.data->0, chain_id)
            } else {
                r is Categorical
            },
            Err(OpinionError::RateLimited) => r matches BinaryLookup::Fail(OpinionError::RateLimited),
            Err(OpinionError::AuthRequired) => r matches BinaryLookup::Fail(OpinionError::AuthRequired),
            Err(_) => r is Categorical,
        },
{
    match reply {
        Ok(env) => {
            if env.code == 0 {
                match env.data {
                    Some(d) => match parse_market(d, chain_id) {
                        Some(m) => return BinaryLookup::Found(m),
                        None => {},
                    },
                    None => {},
                }
            }
            BinaryLookup::Categorical
        },
        Err(OpinionError::RateLimited) => BinaryLookup::Fail(OpinionError::RateLimited),
        Err(OpinionError::AuthRequired) => BinaryLookup::Fail(OpinionError::AuthRequired),
        Err(_) => BinaryLookup::Categorical,
    }
}

/// The market a categorical reply gives; a non-zero code or data that is
/// no market means the market is not found.
pub fn categorical_result(env: &ApiEnvelope, market_id: &str, chain_id: u64) -> (r: Result<
    OpinionMarket,
    OpenPxError,
>)
    ensures
        env.code == 0 && is_market_data(env.data) ==> (r matches Ok(m) && is_opinion_market(
            m,
            *env.data->0,
            chain_id,
        )),
        !(env.code == 0 && is_market_data(env.data)) ==> (r matches Err(
            OpenPxError::Exchange(ExchangeError::MarketNotFound(id)),
        ) && id@ == market_id@),
{
    if env.code == 0 {
        match env.data {
            Some(d) => match parse_market(d, chain_id) {
                Some(m) => return Ok(m),
                None => {},
            },
            None => {},
        }
    }
    Err(OpenPxError::Exchange(ExchangeError::MarketNotFound(market_id.to_owned())))
}

} // verus!
