//! Kalshi orders and fills: reading them from their JSON objects, and the
//! requests and replies of batched order placement and cancellation.

use vstd::prelude::*;
use vstd::string::*;

use crate::json::{first_some, number_field, number_text, opt_view, str_field, Json};
use crate::kalshi::catalog::{bool_field, text_or_empty};
use crate::kalshi::market::{amount_at, amount_field, price_at, price_field};
use crate::models::{price_view, Fill, Order, OrderSide, OrderStatus, Price};
use crate::number::{float_field, float_text_at};
use crate::text::{lowercase, owned, spec_lowercase, str_eq};
use crate::time::{rfc3339_field, rfc3339_millis, spec_rfc3339_millis};

verus! {

/// An order status word of Kalshi, compared in lower case.
pub open spec fn kalshi_order_status(w: Option<Seq<char>>) -> OrderStatus {
    match w {
        Some(s) => {
            let l = spec_lowercase(s);
            if l == "resting"@ || l == "active"@ || l == "pending"@ {
                OrderStatus::Open
            } else if l == "executed"@ || l == "filled"@ {
                OrderStatus::Filled
            } else if l == "canceled"@ || l == "cancelled"@ {
                OrderStatus::Cancelled
            } else if l == "partial"@ {
                OrderStatus::PartiallyFilled
            } else {
                OrderStatus::Open
            }
        },
        None => OrderStatus::Open,
    }
}

/// The outcome named by a `side` word: `yes` is Yes, any other word No; no
/// word at all is Yes.
pub open spec fn outcome_of_side(w: Option<Seq<char>>) -> Seq<char> {
    match w {
        Some(s) => if s == "yes"@ {
            "Yes"@
        } else {
            "No"@
        },
        None => "Yes"@,
    }
}

/// The first of two members that is present.
pub open spec fn either_field(j: Json, a: Seq<char>, b: Seq<char>) -> Option<Json> {
    first_some(j.field(a), j.field(b))
}

/// The number text of the first of two members that is present.
pub open spec fn either_number(j: Json, a: Seq<char>, b: Seq<char>) -> Option<Seq<char>> {
    match either_field(j, a, b) {
        Some(v) => crate::json::number_text_of(v),
        None => None,
    }
}

/// The RFC 3339 time of the first of two members that is present.
pub open spec fn either_time(j: Json, a: Seq<char>, b: Seq<char>) -> Option<i64> {
    match either_field(j, a, b) {
        Some(v) => match v.str_of() {
            Some(s) => spec_rfc3339_millis(s),
            None => None,
        },
        None => None,
    }
}

/// The price of an order: the yes or no dollar text, else the legacy yes or
/// no cents.
pub open spec fn order_price(j: Json) -> Option<(bool, Seq<char>)> {
    match first_some(float_field(j, "yes_price_dollars"@), float_field(j, "no_price_dollars"@)) {
        Some(t) => Some((true, t)),
        None => match either_number(j, "yes_price"@, "no_price"@) {
            Some(t) => Some((false, t)),
            None => None,
        },
    }
}

/// Whether `o` is the order the Kalshi order object `j` describes, with
/// `now` standing in for a missing creation time.
pub open spec fn is_kalshi_order(o: Order, j: Json, now: i64) -> bool {
    &&& o.id@ == text_or_empty(str_field(j, "order_id"@))
    &&& o.market_ticker@ == text_or_empty(str_field(j, "ticker"@))
    &&& o.side == (if spec_lowercase(
        match str_field(j, "action"@) {
            Some(a) => a,
            None => "buy"@,
        },
    ) == "buy"@ {
        OrderSide::Buy
    } else {
        OrderSide::Sell
    })
    &&& o.outcome@ == outcome_of_side(str_field(j, "side"@))
    &&& o.status == kalshi_order_status(str_field(j, "status"@))
    &&& price_view(o.price) == order_price(j)
    &&& opt_view(o.size) == first_some(
        first_some(float_field(j, "remaining_count_fp"@), float_field(j, "initial_count_fp"@)),
        either_number(j, "remaining_count"@, "count"@),
    )
    &&& opt_view(o.filled) == first_some(
        float_field(j, "fill_count_fp"@),
        number_field(j, "filled_count"@),
    )
    &&& o.fee is None
    &&& o.created_at == (match rfc3339_field(j, "created_time"@) {
        Some(t) => t,
        None => now,
    })
    &&& o.updated_at == either_time(j, "last_update_time"@, "updated_time"@)
}

/// The text of member `key`, or the empty text.
fn str_or_empty(j: &Json, key: &str) -> (r: String)
    ensures
        r@ == text_or_empty(str_field(*j, key@)),
{
    proof {
        reveal_strlit("");
    }
    match j.get_str(key) {
        Some(t) => owned(t),
        None => owned(""),
    }
}

/// The status an order status word stands for.
pub fn order_status_of(w: Option<&str>) -> (r: OrderStatus)
    ensures
        r == kalshi_order_status(
            match w {
                Some(s) => Some(s@),
                None => None,
            },
        ),
{
    match w {
        Some(s) => {
            let l = lowercase(s);
            let l = l.as_str();
            if str_eq(l, "resting") || str_eq(l, "active") || str_eq(l, "pending") {
                OrderStatus::Open
            } else if str_eq(l, "executed") || str_eq(l, "filled") {
                OrderStatus::Filled
            } else if str_eq(l, "canceled") || str_eq(l, "cancelled") {
                OrderStatus::Cancelled
            } else if str_eq(l, "partial") {
                OrderStatus::PartiallyFilled
            } else {
                OrderStatus::Open
            }
        },
        None => OrderStatus::Open,
    }
}

/// The outcome a `side` word names.
pub fn outcome_from_side(w: Option<&str>) -> (r: String)
    ensures
        r@ == outcome_of_side(
            match w {
                Some(s) => Some(s@),
                None => None,
            },
        ),
{
    match w {
        Some(s) => if str_eq(s, "yes") {
            owned("Yes")
        } else {
            owned("No")
        },
        None => owned("Yes"),
    }
}

/// The number text of the first of two members that is present.
fn either_number_at(j: &Json, a: &str, b: &str) -> (r: Option<String>)
    ensures
        opt_view(r) == either_number(*j, a@, b@),
{
    match j.get_either(a, b) {
        Some(v) => number_text(v),
        None => None,
    }
}

/// The RFC 3339 time of the first of two members that is present.
fn either_time_at(j: &Json, a: &str, b: &str) -> (r: Option<i64>)
    ensures
        r == either_time(*j, a@, b@),
{
    match j.get_either(a, b) {
        Some(v) => match v.as_str() {
            Some(s) => rfc3339_millis(s),
            None => None,
        },
        None => None,
    }
}

/// Reads a Kalshi order object (missing members take their defaults);
/// `now_ms` is the creation time when the object gives none.
pub fn parse_order(data: &Json, now_ms: i64) -> (r: Order)
    ensures
        is_kalshi_order(r, *data, now_ms),
{
    let action = match data.get_str("action") {
        Some(a) => lowercase(a),
        None => lowercase("buy"),
    };
    let side = if str_eq(action.as_str(), "buy") {
        OrderSide::Buy
    } else {
        OrderSide::Sell
    };
    let price = match float_text_at(data, "yes_price_dollars") {
        Some(t) => Some(Price::Decimal(t)),
        None => match float_text_at(data, "no_price_dollars") {
            Some(t) => Some(Price::Decimal(t)),
            None => match either_number_at(data, "yes_price", "no_price") {
                Some(t) => Some(Price::Cents(t)),
                None => None,
            },
        },
    };
    let size = match float_text_at(data, "remaining_count_fp") {
        Some(t) => Some(t),
        None => match float_text_at(data, "initial_count_fp") {
            Some(t) => Some(t),
            None => either_number_at(data, "remaining_count", "count"),
        },
    };
    let created_at = match crate::time::rfc3339_at(data, "created_time") {
        Some(t) => t,
        None => now_ms,
    };
    Order {
        id: str_or_empty(data, "order_id"),
        market_ticker: str_or_empty(data, "ticker"),
        outcome: outcome_from_side(data.get_str("side")),
        side,
        price,
        size,
        filled: amount_at(data, "fill_count_fp", "filled_count"),
        fee: None,
        status: order_status_of(data.get_str("status")),
        created_at,
        updated_at: either_time_at(data, "last_update_time", "updated_time"),
    }
}

/// Whether `f` is the fill the Kalshi fill object `j` describes, with `now`
/// standing in for a missing creation time.
pub open spec fn is_kalshi_fill(f: Fill, j: Json, now: i64) -> bool {
    &&& str_field(j, "fill_id"@) == Some(f.fill_id@)
    &&& f.order_id@ == text_or_empty(str_field(j, "order_id"@))
    &&& (match either_field(j, "ticker"@, "market_ticker"@) {
        Some(v) => v.str_of() == Some(f.market_ticker@),
        None => false,
    })
    &&& f.outcome@ == outcome_of_side(str_field(j, "side"@))
    &&& f.side == (if str_field(j, "action"@) == Some("sell"@) {
        OrderSide::Sell
    } else {
        OrderSide::Buy
    })
    &&& price_view(f.price) == (match first_some(
        number_field(j, "yes_price"@),
        number_field(j, "price"@),
    ) {
        Some(t) => Some((false, t)),
        None => None,
    })
    &&& opt_view(f.size) == first_some(float_field(j, "count_fp"@), number_field(j, "count"@))
    &&& f.is_taker == (bool_field(j, "is_taker"@) == Some(true))
    &&& opt_view(f.fee) == float_field(j, "fee_cost"@)
    &&& f.created_at == (match rfc3339_field(j, "created_time"@) {
        Some(t) => t,
        None => now,
    })
}

/// The condition under which a Kalshi fill object reads as a fill: a
/// string `fill_id`, and a string in the first of `ticker` and
/// `market_ticker` that is present.
pub open spec fn is_fill_object(j: Json) -> bool {
    &&& str_field(j, "fill_id"@) is Some
    &&& (match either_field(j, "ticker"@, "market_ticker"@) {
        Some(v) => v.str_of() is Some,
        None => false,
    })
}

/// Reads a Kalshi fill object; `None` when it lacks its id or market.
/// Prices are in cents; `now_ms` is the creation time when none is given.
pub fn parse_fill(data: &Json, now_ms: i64) -> (r: Option<Fill>)
    ensures
        r is Some <==> is_fill_object(*data),
        r matches Some(f) ==> is_kalshi_fill(f, *data, now_ms),
{
    let fill_id = match data.get_string("fill_id") {
        Some(t) => t,
        None => return None,
    };
    let market_ticker = match data.get_either("ticker", "market_ticker") {
        Some(v) => match v.as_str() {
            Some(t) => owned(t),
            None => return None,
        },
        None => return None,
    };
    let side = match data.get_str("action") {
        Some(a) => if str_eq(a, "sell") {
            OrderSide::Sell
        } else {
            OrderSide::Buy
        },
        None => OrderSide::Buy,
    };
    let price = match crate::json::number_text_at(data, "yes_price") {
        Some(t) => Some(Price::Cents(t)),
        None => match crate::json::number_text_at(data, "price") {
            Some(t) => Some(Price::Cents(t)),
            None => None,
        },
    };
    let is_taker = match data.get("is_taker") {
        Some(v) => v.as_bool() == Some(true),
        None => false,
    };
    let created_at = match crate::time::rfc3339_at(data, "created_time") {
        Some(t) => t,
        None => now_ms,
    };
    Some(
        Fill {
            fill_id,
            order_id: str_or_empty(data, "order_id"),
            market_ticker,
            outcome: outcome_from_side(data.get_str("side")),
            side,
            price,
            size: amount_at(data, "count_fp", "count"),
            is_taker,
            fee: float_text_at(data, "fee_cost"),
            created_at,
        },
    )
}

/// A Kalshi order status word reads, in any case, as: `canceled` or
/// `cancelled` Cancelled, `executed` or `filled` Filled, `partial`
/// PartiallyFilled, and every other word (`resting`, `active`, `pending`
/// among them), or none, Open; no word reads as Pending or Rejected.
pub proof fn lemma_kalshi_status_words(s: Seq<char>)
    ensures
        kalshi_order_status(Some(s)) == OrderStatus::Cancelled <==> (spec_lowercase(s) == "canceled"@
            || spec_lowercase(s) == "cancelled"@),
        kalshi_order_status(Some(s)) == OrderStatus::Filled <==> (spec_lowercase(s) == "executed"@
            || spec_lowercase(s) == "filled"@),
        kalshi_order_status(Some(s)) == OrderStatus::PartiallyFilled <==> spec_lowercase(s) == "partial"@,
        kalshi_order_status(Some(s)) == OrderStatus::Open <==> !(spec_lowercase(s) == "canceled"@
            || spec_lowercase(s) == "cancelled"@ || spec_lowercase(s) == "executed"@ || spec_lowercase(s)
            == "filled"@ || spec_lowercase(s) == "partial"@),
        kalshi_order_status(Some(s)) != OrderStatus::Pending,
        kalshi_order_status(Some(s)) != OrderStatus::Rejected,
        kalshi_order_status(None) == OrderStatus::Open,
{
    reveal_strlit("resting");
    reveal_strlit("active");
    reveal_strlit("pending");
    reveal_strlit("executed");
    reveal_strlit("filled");
    reveal_strlit("canceled");
    reveal_strlit("cancelled");
    reveal_strlit("partial");
    assert("resting"@.len() != "active"@.len());
    assert("resting"@[0] != "pending"@[0]);
    assert("resting"@.len() != "executed"@.len());
    assert("resting"@.len() != "filled"@.len());
    assert("resting"@.len() != "canceled"@.len());
    assert("resting"@.len() != "cancelled"@.len());
    assert("resting"@[0] != "partial"@[0]);
    assert("active"@.len() != "pending"@.len());
    assert("active"@.len() != "executed"@.len());
    assert("active"@[0] != "filled"@[0]);
    assert("active"@.len() != "canceled"@.len());
    assert("active"@.len() != "cancelled"@.len());
    assert("active"@.len() != "partial"@.len());
    assert("pending"@.len() != "executed"@.len());
    assert("pending"@.len() != "filled"@.len());
    assert("pending"@.len() != "canceled"@.len());
    assert("pending"@.len() != "cancelled"@.len());
    assert("pending"@[1] != "partial"@[1]);
    assert("executed"@.len() != "filled"@.len());
    assert("executed"@[0] != "canceled"@[0]);
    assert("executed"@.len() != "cancelled"@.len());
    assert("executed"@.len() != "partial"@.len());
    assert("filled"@.len() != "canceled"@.len());
    assert("filled"@.len() != "cancelled"@.len());
    assert("filled"@.len() != "partial"@.len());
    assert("canceled"@.len() != "cancelled"@.len());
    assert("canceled"@.len() != "partial"@.len());
    assert("cancelled"@.len() != "partial"@.len());
}

/// A Kalshi order's `side` word names its outcome: exactly `yes` names
/// Yes, any other word No, and a missing word Yes.
pub proof fn lemma_outcome_of_side(w: Seq<char>)
    ensures
        outcome_of_side(Some(w)) == "Yes"@ <==> w == "yes"@,
        outcome_of_side(Some(w)) == "Yes"@ || outcome_of_side(Some(w)) == "No"@,
        outcome_of_side(None) == "Yes"@,
{
    reveal_strlit("Yes");
    reveal_strlit("No");
    assert("Yes"@.len() != "No"@.len());
}

} // verus!
