//! Connection-level session events and the errors they report.

use vstd::prelude::*;
use vstd::string::*;

verus! {

/// Errors a WebSocket driver reports.
#[derive(Debug, Clone)]
pub enum WebSocketError {
    Connection(String),
    Protocol(String),
    Subscription(String),
}

/// The text each error renders to.
pub open spec fn ws_error_text(e: WebSocketError) -> Seq<char> {
    match e {
        WebSocketError::Connection(m) => "connection error: "@ + m@,
        WebSocketError::Protocol(m) => "protocol error: "@ + m@,
        WebSocketError::Subscription(m) => "subscription error: "@ + m@,
    }
}

impl WebSocketError {
    /// The error rendered as text.
    pub fn to_text(&self) -> (r: String)
        ensures
            r@ == ws_error_text(*self),
    {
        match self {
            WebSocketError::Connection(m) => {
                let mut r = "connection error: ".to_owned();
                r.append(m.as_str());
                r
            },
            WebSocketError::Protocol(m) => {
                let mut r = "protocol error: ".to_owned();
                r.append(m.as_str());
                r
            },
            WebSocketError::Subscription(m) => {
                let mut r = "subscription error: ".to_owned();
                r.append(m.as_str());
                r
            },
        }
    }
}

/// Why a specific book was invalidated.
#[derive(Debug, Clone, Copy, PartialEq, Eq, Structural)]
pub enum InvalidationReason {
    Reconnect,
    Lag,
    SequenceGap { expected: u64, received: u64 },
    ExchangeReset,
}

/// Connection-level events, emitted on a channel separate from per-market
/// updates so that a reconnect is one event.
#[derive(Debug, Clone)]
pub enum SessionEvent {
    /// Initial socket establishment.
    Connected,
    /// Socket re-established after an outage of `gap_ms` milliseconds.
    Reconnected { gap_ms: u64 },
    /// A slow consumer missed updates.
    Lagged { dropped: u64, first_seq: u64, last_seq: u64 },
    /// A market's book is no longer trustworthy.
    BookInvalidated { market_id: String, reason: InvalidationReason },
    /// A non-fatal error on the connection.
    Error { message: String },
}

/// The whole milliseconds in `d` (`Duration::as_millis`).
pub uninterp spec fn duration_millis(d: std::time::Duration) -> u128;

/// `Duration::as_millis`: the whole milliseconds in `d`.
#[verifier::external_body]
fn duration_as_millis(d: &std::time::Duration) -> (r: u128)
    ensures
        r == duration_millis(*d),
{
    d.as_millis()
}

/// `x` cut down to `u64::MAX` when it does not fit.
pub open spec fn saturate_u64(x: u128) -> u64 {
    if x > u64::MAX {
        u64::MAX
    } else {
        x as u64
    }
}

impl SessionEvent {
    /// A `Reconnected` event for an outage of `gap`, its milliseconds cut
    /// down to `u64::MAX` when they do not fit.
    pub fn reconnected(gap: std::time::Duration) -> (r: Self)
        ensures
            r == (SessionEvent::Reconnected { gap_ms: saturate_u64(duration_millis(gap)) }),
    {
        let ms = duration_as_millis(&gap);
        let gap_ms: u64 = if ms > 0xffff_ffff_ffff_ffffu128 {
            0xffff_ffff_ffff_ffff
        } else {
            ms as u64
        };
        SessionEvent::Reconnected { gap_ms }
    }

    /// An `Error` event carrying the rendered text of `err`.
    pub fn error(err: WebSocketError) -> (r: Self)
        ensures
            r matches SessionEvent::Error { message } && message@ == ws_error_text(err),
    {
        SessionEvent::Error { message: err.to_text() }
    }
}

/// The side of a book a level sits on.
#[derive(Debug, Clone, Copy, PartialEq, Eq, Structural)]
pub enum BookSide {
    Bid,
    Ask,
}

/// Whether a fill took or made liquidity.
#[derive(Debug, Clone, Copy, PartialEq, Eq, Structural)]
pub enum LiquidityRole {
    Maker,
    Taker,
}

/// A public trade seen on a socket. `price` and `size` are number text
/// (an absent size counts as zero).
#[derive(Debug, Clone)]
pub struct ActivityTrade {
    pub market_id: String,
    pub asset_id: String,
    pub trade_id: Option<String>,
    pub price: String,
    pub size: Option<String>,
    pub side: Option<String>,
    pub aggressor_side: Option<String>,
    pub outcome: Option<String>,
    pub fee_rate_bps: Option<u32>,
    pub exchange_ts_ms: Option<u64>,
    pub source_channel: String,
}

/// A fill of the user's order seen on a socket. `price`, `size` and `fee`
/// are number text (an absent size counts as zero).
#[derive(Debug, Clone)]
pub struct ActivityFill {
    pub market_id: String,
    pub asset_id: String,
    pub fill_id: Option<String>,
    pub order_id: Option<String>,
    pub price: String,
    pub size: Option<String>,
    pub side: Option<String>,
    pub outcome: Option<String>,
    pub tx_hash: Option<String>,
    pub fee: Option<String>,
    pub exchange_ts_ms: Option<u64>,
    pub source_channel: String,
    pub liquidity_role: Option<LiquidityRole>,
}

} // verus!
