//! Opinion orders and positions, read from their JSON objects.

use vstd::prelude::*;
use vstd::string::*;

use crate::json::{opt_view, Json};
use crate::kalshi::catalog::text_or_empty;
use crate::models::{price_view, Order, OrderSide, OrderStatus, Price};
use crate::opinion::fields::{
    get3, get4, opt_amount, opt_id, opt_str, pick2, pick3, pick4, then_amount, then_id, then_str,
    time_ms, time_of,
};
use crate::text::{lowercase, owned, spec_lowercase, str_eq};

verus! {

/// The side an Opinion side value names: the word `buy` (any case) or the
/// code 1 buy, other words and codes sell; other values and no value buy.
pub open spec fn opinion_side(v: Option<Json>) -> OrderSide {
    match v {
        Some(x) => match x.str_of() {
            Some(s) => if spec_lowercase(s) == "buy"@ {
                OrderSide::Buy
            } else {
                OrderSide::Sell
            },
            None => match x.i64_of() {
                Some(n) => if n == 1 {
                    OrderSide::Buy
                } else {
                    OrderSide::Sell
                },
                None => OrderSide::Buy,
            },
        },
        None => OrderSide::Buy,
    }
}

/// The status an Opinion status value names. Codes: 1 pending, 2 filled,
/// 3 cancelled, 4 expired (cancelled), 5 failed (rejected), others open.
/// Words are compared in lower case.
pub open spec fn opinion_status(v: Option<Json>) -> OrderStatus {
    match v {
        Some(x) => match x.i64_of() {
            Some(n) => if n == 1 {
                OrderStatus::Pending
            } else if n == 2 {
                OrderStatus::Filled
            } else if n == 3 || n == 4 {
                OrderStatus::Cancelled
            } else if n == 5 {
                OrderStatus::Rejected
            } else {
                OrderStatus::Open
            },
            None => match x.str_of() {
                Some(s) => {
                    let l = spec_lowercase(s);
                    if l == "filled"@ || l == "matched"@ {
                        OrderStatus::Filled
                    } else if l == "cancelled"@ || l == "canceled"@ || l == "expired"@ {
                        OrderStatus::Cancelled
                    } else if l == "partially_filled"@ {
                        OrderStatus::PartiallyFilled
                    } else if l == "pending"@ {
                        OrderStatus::Pending
                    } else if l == "failed"@ {
                        OrderStatus::Rejected
                    } else {
                        OrderStatus::Open
                    }
                },
                None => OrderStatus::Open,
            },
        },
        None => OrderStatus::Open,
    }
}

/// Reads a side value.
pub fn side_of(v: Option<&Json>) -> (r: OrderSide)
    ensures
        r == opinion_side(
            match v {
                Some(x) => Some(*x),
                None => None,
            },
        ),
{
    match v {
        Some(x) => match x.as_str() {
            Some(s) => {
                let l = lowercase(s);
                if str_eq(l.as_str(), "buy") {
                    OrderSide::Buy
                } else {
                    OrderSide::Sell
                }
            },
            None => match x.as_i64() {
                Some(n) => if n == 1 {
                    OrderSide::Buy
                } else {
                    OrderSide::Sell
                },
                None => OrderSide::Buy,
            },
        },
        None => OrderSide::Buy,
    }
}

/// Reads a status value.
pub fn status_of(v: Option<&Json>) -> (r: OrderStatus)
    ensures
        r == opinion_status(
            match v {
                Some(x) => Some(*x),
                None => None,
            },
        ),
{
    match v {
        Some(x) => match x.as_i64() {
            Some(n) => if n == 1 {
                OrderStatus::Pending
            } else if n == 2 {
                OrderStatus::Filled
            } else if n == 3 || n == 4 {
                OrderStatus::Cancelled
            } else if n == 5 {
                OrderStatus::Rejected
            } else {
                OrderStatus::Open
            },
            None => match x.as_str() {
                Some(s) => {
                    let l = lowercase(s);
                    let l = l.as_str();
                    if str_eq(l, "filled") || str_eq(l, "matched") {
                        OrderStatus::Filled
                    } else if str_eq(l, "cancelled") || str_eq(l, "canceled") || str_eq(l, "expired") {
                        OrderStatus::Cancelled
                    } else if str_eq(l, "partially_filled") {
                        OrderStatus::PartiallyFilled
                    } else if str_eq(l, "pending") {
                        OrderStatus::Pending
                    } else if str_eq(l, "failed") {
                        OrderStatus::Rejected
                    } else {
                        OrderStatus::Open
                    }
                },
                None => OrderStatus::Open,
            },
        },
        None => OrderStatus::Open,
    }
}

/// Whether `o` is the order the Opinion order object `j` describes; `now`
/// stands in for a missing or unreadable creation time.
pub open spec fn is_opinion_order(o: Order, j: Json, now: i64) -> bool {
    &&& o.id@ == text_or_empty(then_id(pick4(j, "orderId"@, "order_id"@, "id"@, "orderID"@)))
    &&& o.market_ticker@ == text_or_empty(then_id(pick3(j, "marketId"@, "topic_id"@, "market_id"@)))
    &&& o.outcome@ == text_or_empty(then_str(j.field("outcome"@)))
    &&& o.side == opinion_side(pick3(j, "sideEnum"@, "side_enum"@, "side"@))
    &&& price_view(o.price) == (match then_amount(j.field("price"@)) {
        Some(t) => Some((true, t)),
        None => None,
    })
    &&& opt_view(o.size) == then_amount(
        pick4(j, "orderShares"@, "order_shares"@, "maker_amount"@, "size"@),
    )
    &&& opt_view(o.filled) == then_amount(
        pick4(j, "filledShares"@, "filled_shares"@, "matched_amount"@, "filled"@),
    )
    &&& o.fee is None
    &&& o.status == opinion_status(j.field("status"@))
    &&& o.created_at == (match pick2(j, "createdAt"@, "created_at"@) {
        Some(v) => match time_of(v) {
            Some(t) => t,
            None => now,
        },
        None => now,
    })
    &&& o.updated_at is None
}

/// The text of an optional text, or the empty text.
fn or_empty(s: Option<String>) -> (r: String)
    ensures
        r@ == text_or_empty(opt_view(s)),
{
    match s {
        Some(t) => t,
        None => String::new(),
    }
}

/// Reads an Opinion order object (missing members take their defaults).
pub fn parse_order(data: &Json, now_ms: i64) -> (r: Order)
    ensures
        is_opinion_order(r, *data, now_ms),
{
    let id = or_empty(opt_id(get4(data, "orderId", "order_id", "id", "orderID")));
    let market = or_empty(opt_id(get3(data, "marketId", "topic_id", "market_id")));
    let outcome = match opt_str(data.get("outcome")) {
        Some(s) => owned(s),
        None => String::new(),
    };
    let price = match opt_amount(data.get("price")) {
        Some(t) => Some(Price::Decimal(t)),
        None => None,
    };
    let created_at = match data.get_either("createdAt", "created_at") {
        Some(v) => match time_ms(v) {
            Some(t) => t,
            None => now_ms,
        },
        None => now_ms,
    };
    Order {
        id,
        market_ticker: market,
        outcome,
        side: side_of(get3(data, "sideEnum", "side_enum", "side")),
        price,
        size: opt_amount(get4(data, "orderShares", "order_shares", "maker_amount", "size")),
        filled: opt_amount(get4(data, "filledShares", "filled_shares", "matched_amount", "filled")),
        fee: None,
        status: status_of(data.get("status")),
        created_at,
        updated_at: None,
    }
}

/// A position. Amounts are number text (absent ones count as zero).
#[derive(Debug, Clone)]
pub struct Position {
    pub market_id: String,
    pub outcome: String,
    pub size: Option<String>,
    pub average_price: Option<String>,
    pub current_price: Option<String>,
}

/// Whether `p` is the position the Opinion position object `j` describes.
pub open spec fn is_opinion_position(p: Position, j: Json) -> bool {
    &&& p.market_id@ == text_or_empty(then_id(pick3(j, "marketId"@, "topic_id"@, "market_id"@)))
    &&& p.outcome@ == text_or_empty(then_str(pick2(j, "outcome"@, "token_name"@)))
    &&& opt_view(p.size) == then_amount(
        pick4(j, "sharesOwned"@, "shares_owned"@, "size"@, "balance"@),
    )
    &&& opt_view(p.average_price) == then_amount(
        pick3(j, "avgEntryPrice"@, "avg_entry_price"@, "average_price"@),
    )
    &&& opt_view(p.current_price) == then_amount(
        pick3(j, "currentPrice"@, "current_price"@, "price"@),
    )
}

/// Reads an Opinion position object (missing members take their defaults).
pub fn parse_position(data: &Json) -> (r: Position)
    ensures
        is_opinion_position(r, *data),
{
    let outcome = match opt_str(data.get_either("outcome", "token_name")) {
        Some(s) => owned(s),
        None => String::new(),
    };
    Position {
        market_id: or_empty(opt_id(get3(data, "marketId", "topic_id", "market_id"))),
        outcome,
        size: opt_amount(get4(data, "sharesOwned", "shares_owned", "size", "balance")),
        average_price: opt_amount(get3(data, "avgEntryPrice", "avg_entry_price", "average_price")),
        current_price: opt_amount(get3(data, "currentPrice", "current_price", "price")),
    }
}

/// An Opinion order status given as an integer code reads as: 1 Pending,
/// 2 Filled, 3 or 4 Cancelled, 5 Rejected, any other code Open; each of
/// these statuses comes from those codes only.
pub proof fn lemma_opinion_status_codes(x: Json, n: i64)
    requires
        x.i64_of() == Some(n),
    ensures
        opinion_status(Some(x)) == OrderStatus::Pending <==> n == 1,
        opinion_status(Some(x)) == OrderStatus::Filled <==> n == 2,
        opinion_status(Some(x)) == OrderStatus::Cancelled <==> (n == 3 || n == 4),
        opinion_status(Some(x)) == OrderStatus::Rejected <==> n == 5,
        opinion_status(Some(x)) == OrderStatus::Open <==> !(1 <= n <= 5),
        opinion_status(Some(x)) != OrderStatus::PartiallyFilled,
{
}

/// An Opinion order status given as a word reads, in any case, as:
/// `filled` or `matched` Filled; `cancelled`, `canceled` or `expired`
/// Cancelled; `partially_filled` PartiallyFilled; `pending` Pending;
/// `failed` Rejected; any other word Open.
pub proof fn lemma_opinion_status_words(x: Json, s: Seq<char>)
    requires
        x.i64_of() is None,
        x.str_of() == Some(s),
    ensures
        opinion_status(Some(x)) == OrderStatus::Filled <==> (spec_lowercase(s) == "filled"@ || spec_lowercase(s)
            == "matched"@),
        opinion_status(Some(x)) == OrderStatus::Cancelled <==> (spec_lowercase(s) == "cancelled"@
            || spec_lowercase(s) == "canceled"@ || spec_lowercase(s) == "expired"@),
        opinion_status(Some(x)) == OrderStatus::PartiallyFilled <==> spec_lowercase(s) == "partially_filled"@,
        opinion_status(Some(x)) == OrderStatus::Pending <==> spec_lowercase(s) == "pending"@,
        opinion_status(Some(x)) == OrderStatus::Rejected <==> spec_lowercase(s) == "failed"@,
{
    reveal_strlit("filled");
    reveal_strlit("matched");
    reveal_strlit("cancelled");
    reveal_strlit("canceled");
    reveal_strlit("expired");
    reveal_strlit("partially_filled");
    reveal_strlit("pending");
    reveal_strlit("failed");
    assert("filled"@.len() != "matched"@.len());
    assert("filled"@.len() != "cancelled"@.len());
    assert("filled"@.len() != "canceled"@.len());
    assert("filled"@.len() != "expired"@.len());
    assert("filled"@.len() != "partially_filled"@.len());
    assert("filled"@.len() != "pending"@.len());
    assert("filled"@[1] != "failed"@[1]);
    assert("matched"@.len() != "cancelled"@.len());
    assert("matched"@.len() != "canceled"@.len());
    assert("matched"@[0] != "expired"@[0]);
    assert("matched"@.len() != "partially_filled"@.len());
    assert("matched"@[0] != "pending"@[0]);
    assert("matched"@.len() != "failed"@.len());
    assert("cancelled"@.len() != "canceled"@.len());
    assert("cancelled"@.len() != "expired"@.len());
    assert("cancelled"@.len() != "partially_filled"@.len());
    assert("cancelled"@.len() != "pending"@.len());
    assert("cancelled"@.len() != "failed"@.len());
    assert("canceled"@.len() != "expired"@.len());
    assert("canceled"@.len() != "partially_filled"@.len());
    assert("canceled"@.len() != "pending"@.len());
    assert("canceled"@.len() != "failed"@.len());
    assert("expired"@.len() != "partially_filled"@.len());
    assert("expired"@[0] != "pending"@[0]);
    assert("expired"@.len() != "failed"@.len());
    assert("partially_filled"@.len() != "pending"@.len());
    assert("partially_filled"@.len() != "failed"@.len());
    assert("pending"@.len() != "failed"@.len());
}

} // verus!
