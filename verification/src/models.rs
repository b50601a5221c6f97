//! Exchange-neutral enums shared by the exchange adapters.

use vstd::prelude::*;

verus! {

/// Lifecycle of a market.
#[derive(Debug, Clone, Copy, PartialEq, Eq, Structural)]
pub enum MarketStatus {
    Active,
    Closed,
    Resolved,
}

/// The shape of a market's outcomes.
#[derive(Debug, Clone, Copy, PartialEq, Eq, Structural)]
pub enum MarketType {
    Binary,
    Categorical,
    Scalar,
}

/// Which markets a listing asks for.
#[derive(Debug, Clone, Copy, PartialEq, Eq, Structural)]
pub enum MarketStatusFilter {
    Active,
    Closed,
    Resolved,
    All,
}

/// Buy or sell.
#[derive(Debug, Clone, Copy, PartialEq, Eq, Structural)]
pub enum OrderSide {
    Buy,
    Sell,
}

/// Where an order stands.
#[derive(Debug, Clone, Copy, PartialEq, Eq, Structural)]
pub enum OrderStatus {
    Pending,
    Open,
    PartiallyFilled,
    Filled,
    Cancelled,
    Rejected,
}

/// Time in force of an order.
#[derive(Debug, Clone, Copy, PartialEq, Eq, Structural)]
pub enum OrderType {
    Gtc,
    Ioc,
    Fok,
}

/// The binary outcome an order is for.
#[derive(Debug, Clone, Copy, PartialEq, Eq, Structural)]
pub enum OrderOutcome {
    Yes,
    No,
}

/// The status a filter asks for; `None` for `All`.
pub open spec fn requested_status(f: MarketStatusFilter) -> Option<MarketStatus> {
    match f {
        MarketStatusFilter::Active => Some(MarketStatus::Active),
        MarketStatusFilter::Closed => Some(MarketStatus::Closed),
        MarketStatusFilter::Resolved => Some(MarketStatus::Resolved),
        MarketStatusFilter::All => None,
    }
}

/// The status a filter asks for; `None` for `All`.
pub fn status_for_filter(f: MarketStatusFilter) -> (r: Option<MarketStatus>)
    ensures
        r == requested_status(f),
{
    match f {
        MarketStatusFilter::Active => Some(MarketStatus::Active),
        MarketStatusFilter::Closed => Some(MarketStatus::Closed),
        MarketStatusFilter::Resolved => Some(MarketStatus::Resolved),
        MarketStatusFilter::All => None,
    }
}

/// Whether a market of status `s` passes filter `f`.
pub fn filter_admits(f: MarketStatusFilter, s: MarketStatus) -> (r: bool)
    ensures
        r == (requested_status(f) is None || requested_status(f) == Some(s)),
{
    match status_for_filter(f) {
        None => true,
        Some(want) => want == s,
    }
}

/// An event: a group of related markets. Times are milliseconds since the
/// epoch; `volume` and `open_interest` are decimal number text.
#[derive(Debug, Clone)]
pub struct Event {
    pub ticker: String,
    pub numeric_id: Option<u64>,
    pub title: String,
    pub description: Option<String>,
    pub category: Option<String>,
    pub series_ticker: Option<String>,
    pub status: Option<MarketStatus>,
    pub market_tickers: Vec<String>,
    pub start_ts: Option<i64>,
    pub end_ts: Option<i64>,
    pub volume: Option<String>,
    pub open_interest: Option<String>,
    pub mutually_exclusive: Option<bool>,
    pub last_updated_ts: Option<i64>,
}

/// Where a series settles.
#[derive(Debug, Clone)]
pub struct SettlementSource {
    pub name: Option<String>,
    pub url: Option<String>,
}

/// A series: a template that recurring events are made from. `volume` is
/// decimal number text.
#[derive(Debug, Clone)]
pub struct Series {
    pub ticker: String,
    pub numeric_id: Option<u64>,
    pub title: String,
    pub category: Option<String>,
    pub frequency: Option<String>,
    pub tags: Vec<String>,
    pub settlement_sources: Vec<SettlementSource>,
    pub fee_type: Option<String>,
    pub volume: Option<String>,
    pub last_updated_ts: Option<i64>,
}

/// A price as the venue sent it: number text in the unit of account, or
/// number text counting hundredths of it (cents).
#[derive(Debug, Clone)]
pub enum Price {
    Decimal(String),
    Cents(String),
}

/// A price as `(in whole units, text)`.
pub open spec fn price_view(p: Option<Price>) -> Option<(bool, Seq<char>)> {
    match p {
        Some(Price::Decimal(t)) => Some((true, t@)),
        Some(Price::Cents(t)) => Some((false, t@)),
        None => None,
    }
}

/// An order. Amounts are number text (absent ones count as zero); times
/// are milliseconds since the epoch.
#[derive(Debug, Clone)]
pub struct Order {
    pub id: String,
    pub market_ticker: String,
    pub outcome: String,
    pub side: OrderSide,
    pub price: Option<Price>,
    pub size: Option<String>,
    pub filled: Option<String>,
    pub fee: Option<String>,
    pub status: OrderStatus,
    pub created_at: i64,
    pub updated_at: Option<i64>,
}

/// A fill of an order. Amounts are number text (absent ones count as zero).
#[derive(Debug, Clone)]
pub struct Fill {
    pub fill_id: String,
    pub order_id: String,
    pub market_ticker: String,
    pub outcome: String,
    pub side: OrderSide,
    pub price: Option<Price>,
    pub size: Option<String>,
    pub is_taker: bool,
    pub fee: Option<String>,
    pub created_at: i64,
}

/// An order to place. `price` and `size` are decimal text at the precision
/// the venue takes them.
#[derive(Debug, Clone)]
pub struct NewOrder {
    pub market_ticker: String,
    pub outcome: String,
    pub side: OrderSide,
    pub price: String,
    pub size: String,
    pub order_type: OrderType,
    pub post_only: Option<bool>,
    pub reduce_only: Option<bool>,
    pub client_order_id: Option<String>,
    pub expiration_ts: Option<i64>,
}

/// A public trade. `price` and `size` are number text; `timestamp` is
/// milliseconds since the epoch.
#[derive(Debug, Clone)]
pub struct MarketTrade {
    pub id: Option<String>,
    pub price: String,
    pub size: Option<String>,
    pub aggressor_side: Option<String>,
    pub timestamp: i64,
    pub source_channel: String,
    pub outcome: Option<String>,
}

/// What a market listing asks for.
#[derive(Debug, Clone)]
pub struct FetchMarketsParams {
    pub status: Option<MarketStatusFilter>,
    pub cursor: Option<String>,
    pub limit: Option<usize>,
    pub series_ticker: Option<String>,
    pub event_ticker: Option<String>,
    pub event_id: Option<String>,
    pub market_tickers: Vec<String>,
}

/// What an exchange client offers: its id and display name, and which
/// calls it supports.
#[derive(Debug, Clone)]
pub struct ExchangeInfo {
    pub id: String,
    pub name: String,
    pub has_fetch_markets: bool,
    pub has_create_order: bool,
    pub has_cancel_order: bool,
    pub has_fetch_positions: bool,
    pub has_fetch_balance: bool,
    pub has_fetch_orderbook: bool,
    pub has_fetch_price_history: bool,
    pub has_fetch_trades: bool,
    pub has_fetch_user_activity: bool,
    pub has_fetch_fills: bool,
    pub has_fetch_server_time: bool,
    pub has_approvals: bool,
    pub has_refresh_balance: bool,
    pub has_websocket: bool,
    pub has_fetch_orderbook_history: bool,
    pub has_fetch_market_lineage: bool,
    pub has_fetch_orderbooks_batch: bool,
    pub has_cancel_all_orders: bool,
    pub has_create_orders_batch: bool,
}

} // verus!
