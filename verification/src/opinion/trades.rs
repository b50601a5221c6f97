//! Opinion trade history: the requests, which rows become trades and
//! fills, and the pages they make. Amounts stay number text; a row whose
//! size is at or below zero is dropped by reading that text.

use vstd::prelude::*;
use vstd::string::*;

use crate::json::{json_text, opt_view, spec_json_text, Json};
use crate::number::{amount_kept, amount_kept_of};
use crate::kalshi::catalog::text_or_empty;
use crate::models::{price_view, Fill, MarketTrade, OrderSide, Price};
use crate::opinion::fields::{amount_text, amount_text_of, pick2, then_amount, time_ms, time_of};
use crate::text::{
    concat, decimal, lowercase, owned, parse_u64, parse_u64_spec, push_decimal, spec_lowercase,
    str_eq,
};

verus! {

/// A value as text: a string as is, anything else as its JSON text.
pub open spec fn text_or_json_of(v: Json) -> Seq<char> {
    match v {
        Json::Str(s) => s@,
        _ => spec_json_text(v),
    }
}

/// An optional value as text.
pub open spec fn then_text(v: Option<Json>) -> Option<Seq<char>> {
    match v {
        Some(x) => Some(text_or_json_of(x)),
        None => None,
    }
}

/// Reads a value as text.
pub fn text_or_json(v: &Json) -> (r: String)
    ensures
        r@ == text_or_json_of(*v),
{
    match v {
        Json::Str(s) => s.clone(),
        _ => json_text(v),
    }
}

/// Reads an optional value as text.
fn opt_text(v: Option<&Json>) -> (r: Option<String>)
    ensures
        opt_view(r) == then_text(
            match v {
                Some(x) => Some(*x),
                None => None,
            },
        ),
{
    match v {
        Some(x) => Some(text_or_json(x)),
        None => None,
    }
}

/// The page size of a trade listing: the one asked for (20 by default),
/// between 1 and 100.
pub open spec fn trade_limit_of(limit: Option<usize>) -> nat {
    let l: nat = match limit {
        Some(l) => l as nat,
        None => 20,
    };
    if l < 1 {
        1
    } else if l > 100 {
        100
    } else {
        l
    }
}

/// The page size of a trade listing.
pub fn trade_limit(limit: Option<usize>) -> (r: usize)
    ensures
        r == trade_limit_of(limit),
{
    let l = match limit {
        Some(l) => l,
        None => 20,
    };
    if l < 1 {
        1
    } else if l > 100 {
        100
    } else {
        l
    }
}

/// The page a trade cursor names: its number when it is one, else 1.
pub open spec fn trade_page_of(cursor: Option<Seq<char>>) -> nat {
    match cursor {
        Some(c) => match parse_u64_spec(c) {
            Some(n) => if n <= usize::MAX {
                n as nat
            } else {
                1
            },
            None => 1,
        },
        None => 1,
    }
}

/// The page a trade cursor names.
pub fn trade_page(cursor: Option<&str>) -> (r: usize)
    ensures
        r == trade_page_of(
            match cursor {
                Some(c) => Some(c@),
                None => None,
            },
        ),
{
    match cursor {
        Some(c) => match parse_u64(c) {
            Some(n) => if n <= usize::MAX as u64 {
                n as usize
            } else {
                1
            },
            None => 1,
        },
        None => 1,
    }
}

/// `/openapi/trade/user/{address}?page={page}&limit={limit}`.
pub open spec fn user_trades_endpoint_of(address: Seq<char>, page: nat, limit: nat) -> Seq<char> {
    "/openapi/trade/user/"@ + address + "?page="@ + decimal(page) + "&limit="@ + decimal(limit)
}

/// The request of one page of a wallet's trades.
pub fn user_trades_endpoint(address: &str, page: usize, limit: usize) -> (r: String)
    ensures
        r@ == user_trades_endpoint_of(address@, page as nat, limit as nat),
{
    let mut out = concat("/openapi/trade/user/", address);
    out.append("?page=");
    push_decimal(&mut out, page as u64);
    out.append("&limit=");
    push_decimal(&mut out, limit as u64);
    out
}

/// `/openapi/positions/user/{address}?page={page}&limit={limit}`.
pub open spec fn user_positions_endpoint_of(address: Seq<char>, page: nat, limit: nat) -> Seq<char> {
    "/openapi/positions/user/"@ + address + "?page="@ + decimal(page) + "&limit="@ + decimal(
        limit,
    )
}

/// The request of one page of a wallet's positions.
pub fn user_positions_endpoint(address: &str, page: usize, limit: usize) -> (r: String)
    ensures
        r@ == user_positions_endpoint_of(address@, page as nat, limit as nat),
{
    let mut out = concat("/openapi/positions/user/", address);
    out.append("?page=");
    push_decimal(&mut out, page as u64);
    out.append("&limit=");
    push_decimal(&mut out, limit as u64);
    out
}

/// The cursor after a page of `count` trades: the next page when the page
/// was full.
pub fn next_trade_cursor(count: usize, limit: usize, page: usize) -> (r: Option<String>)
    requires
        page < usize::MAX,
    ensures
        r is Some <==> count >= limit,
        r matches Some(c) ==> c@ == decimal((page + 1) as nat),
{
    if count >= limit {
        let mut c = String::new();
        push_decimal(&mut c, (page + 1) as u64);
        assert(c@ =~= decimal((page + 1) as nat));
        Some(c)
    } else {
        None
    }
}

/// The aggressor of a trade row: a side word (`buy` or `1` in any case
/// buys, any other word sells), or a side code (1 buys, others sell).
pub open spec fn aggressor_of(v: Option<Json>) -> Option<Seq<char>> {
    match v {
        Some(x) => match x.str_of() {
            Some(s) => {
                let l = spec_lowercase(s);
                Some(if l == "buy"@ || l == "1"@ {
                    "buy"@
                } else {
                    "sell"@
                })
            },
            None => match x.i64_of() {
                Some(n) => Some(if n == 1 {
                    "buy"@
                } else {
                    "sell"@
                }),
                None => None,
            },
        },
        None => None,
    }
}

/// Whether a trade row passes the market filter: with a market asked for,
/// a row that names another market is dropped.
pub open spec fn trade_in_market(row: Json, market: Seq<char>) -> bool {
    market.len() == 0 || match then_text(row.field("market_id"@)) {
        Some(tm) => tm == market,
        None => true,
    }
}

/// Whether `t` is the trade that row `row` gives, with `now` standing in
/// for a missing time.
pub open spec fn is_trade_of(t: MarketTrade, row: Json, now: i64) -> bool {
    &&& then_amount(row.field("price"@)) == Some(t.price@)
    &&& opt_view(t.size) == then_amount(pick2(row, "shares"@, "amount"@))
    &&& opt_view(t.id) == then_text(pick2(row, "trade_id"@, "id"@))
    &&& opt_view(t.aggressor_side) == aggressor_of(row.field("side"@))
    &&& t.timestamp == (match pick2(row, "created_at"@, "timestamp"@) {
        Some(v) => match time_of(v) {
            Some(ms) => ms,
            None => now,
        },
        None => now,
    })
    &&& t.source_channel@ == "opinion_rest_trade"@
    &&& opt_view(t.outcome) == (match row.field("outcome"@) {
        Some(v) => v.str_of(),
        None => None,
    })
}

/// A row becomes a trade when it is an object with a readable price and
/// passes the market filter.
pub open spec fn is_trade_row(row: Json, market: Seq<char>) -> bool {
    row is Object && then_amount(row.field("price"@)) is Some && trade_in_market(row, market)
}

/// Reads a trade row, under the market filter `market` (empty for none).
pub fn trade_of(row: &Json, market: &str, now_ms: i64) -> (r: Option<MarketTrade>)
    ensures
        r is Some <==> is_trade_row(*row, market@),
        r matches Some(t) ==> is_trade_of(t, *row, now_ms),
{
    match row {
        Json::Object(_) => {},
        _ => return None,
    }
    let price = match row.get("price") {
        Some(v) => match amount_text(v) {
            Some(t) => t,
            None => return None,
        },
        None => return None,
    };
    if market.unicode_len() > 0 {
        match row.get("market_id") {
            Some(v) => {
                let tm = text_or_json(v);
                if !str_eq(tm.as_str(), market) {
                    return None;
                }
            },
            None => {},
        }
    }
    let size = match row.get_either("shares", "amount") {
        Some(v) => amount_text(v),
        None => None,
    };
    let timestamp = match row.get_either("created_at", "timestamp") {
        Some(v) => match time_ms(v) {
            Some(ms) => ms,
            None => now_ms,
        },
        None => now_ms,
    };
    let aggressor_side = match row.get("side") {
        Some(v) => match v.as_str() {
            Some(s) => {
                let l = lowercase(s);
                if str_eq(l.as_str(), "buy") || str_eq(l.as_str(), "1") {
                    Some(owned("buy"))
                } else {
                    Some(owned("sell"))
                }
            },
            None => match v.as_i64() {
                Some(n) => if n == 1 {
                    Some(owned("buy"))
                } else {
                    Some(owned("sell"))
                },
                None => None,
            },
        },
        None => None,
    };
    let outcome = match row.get("outcome") {
        Some(v) => match v.as_str() {
            Some(s) => Some(owned(s)),
            None => None,
        },
        None => None,
    };
    Some(
        MarketTrade {
            id: opt_text(row.get_either("trade_id", "id")),
            price,
            size,
            aggressor_side,
            timestamp,
            source_channel: owned("opinion_rest_trade"),
            outcome,
        },
    )
}

/// The side of a fill row: `sell` or `2`, as text or JSON text, sells.
pub open spec fn fill_side_of(v: Option<Json>) -> OrderSide {
    match then_text(v) {
        Some(s) => if s == "sell"@ || s == "2"@ {
            OrderSide::Sell
        } else {
            OrderSide::Buy
        },
        None => OrderSide::Buy,
    }
}

/// A row becomes a fill when it is an object of the wanted market (any,
/// for `None`) with an id and a readable price.
pub open spec fn is_fill_row(row: Json, market: Option<Seq<char>>) -> bool {
    &&& row is Object
    &&& (match market {
        Some(m) => then_text(row.field("market_id"@)) == Some(m),
        None => true,
    })
    &&& pick2(row, "trade_id"@, "id"@) is Some
    &&& then_amount(row.field("price"@)) is Some
}

/// Whether `f` is the fill that row `row` gives, with `now` standing in for
/// a missing time.
pub open spec fn is_fill_of(f: Fill, row: Json, now: i64) -> bool {
    &&& then_text(pick2(row, "trade_id"@, "id"@)) == Some(f.fill_id@)
    &&& f.order_id@ == text_or_empty(then_text(row.field("order_id"@)))
    &&& f.market_ticker@ == text_or_empty(then_text(row.field("market_id"@)))
    &&& price_view(f.price) == (match then_amount(row.field("price"@)) {
        Some(t) => Some((true, t)),
        None => None,
    })
    &&& opt_view(f.size) == then_amount(pick2(row, "shares"@, "amount"@))
    &&& f.side == fill_side_of(row.field("side"@))
    &&& f.outcome@ == (match row.field("outcome"@) {
        Some(v) => match v.str_of() {
            Some(s) => s,
            None => "Yes"@,
        },
        None => "Yes"@,
    })
    &&& opt_view(f.fee) == then_amount(row.field("fee"@))
    &&& !f.is_taker
    &&& f.created_at == (match pick2(row, "created_at"@, "timestamp"@) {
        Some(v) => match time_of(v) {
            Some(ms) => ms,
            None => now,
        },
        None => now,
    })
}

/// Reads a fill row of a wallet's trade history, under the market filter.
pub fn fill_of(row: &Json, market: Option<&str>, now_ms: i64) -> (r: Option<Fill>)
    ensures
        r is Some <==> is_fill_row(
            *row,
            match market {
                Some(m) => Some(m@),
                None => None,
            },
        ),
        r matches Some(f) ==> is_fill_of(f, *row, now_ms),
{
    proof {
        reveal_strlit("");
    }
    match row {
        Json::Object(_) => {},
        _ => return None,
    }
    let trade_market = opt_text(row.get("market_id"));
    match market {
        Some(m) => match &trade_market {
            Some(tm) => if !str_eq(tm.as_str(), m) {
                return None;
            },
            None => return None,
        },
        None => {},
    }
    let fill_id = match row.get_either("trade_id", "id") {
        Some(v) => text_or_json(v),
        None => return None,
    };
    let price = match row.get("price") {
        Some(v) => match amount_text(v) {
            Some(t) => t,
            None => return None,
        },
        None => return None,
    };
    let order_id = match row.get("order_id") {
        Some(v) => text_or_json(v),
        None => owned(""),
    };
    let market_ticker = match trade_market {
        Some(t) => t,
        None => owned(""),
    };
    let side = match row.get("side") {
        Some(v) => {
            let s = text_or_json(v);
            if str_eq(s.as_str(), "sell") || str_eq(s.as_str(), "2") {
                OrderSide::Sell
            } else {
                OrderSide::Buy
            }
        },
        None => OrderSide::Buy,
    };
    let outcome = match row.get("outcome") {
        Some(v) => match v.as_str() {
            Some(s) => owned(s),
            None => owned("Yes"),
        },
        None => owned("Yes"),
    };
    let fee = match row.get("fee") {
        Some(v) => amount_text(v),
        None => None,
    };
    let created_at = match row.get_either("created_at", "timestamp") {
        Some(v) => match time_ms(v) {
            Some(ms) => ms,
            None => now_ms,
        },
        None => now_ms,
    };
    let size = match row.get_either("shares", "amount") {
        Some(v) => amount_text(v),
        None => None,
    };
    assert(side == fill_side_of(row.field("side"@)));
    assert(order_id@ == text_or_empty(then_text(row.field("order_id"@))));
    assert(market_ticker@ == text_or_empty(then_text(row.field("market_id"@))));
    assert(then_text(pick2(*row, "trade_id"@, "id"@)) == Some(fill_id@));
    Some(
        Fill {
            fill_id,
            order_id,
            market_ticker,
            outcome,
            side,
            price: Some(Price::Decimal(price)),
            size,
            is_taker: false,
            fee,
            created_at,
        },
    )
}

/// Whether a row's size (`shares`, else `amount`) reads and is not at or
/// below zero; a row without a readable size counts as size zero.
pub open spec fn size_kept(row: Json) -> bool {
    match pick2(row, "shares"@, "amount"@) {
        Some(v) => amount_text_of(v) is Some && amount_kept(v),
        None => false,
    }
}

/// The trade rows a page keeps: those that give a trade in `market` and
/// whose size is above zero.
pub open spec fn trade_kept(market: Seq<char>) -> spec_fn(Json) -> bool {
    |row: Json| is_trade_row(row, market) && size_kept(row)
}

/// The fill rows a list keeps: those that give a fill in `market` and
/// whose size is above zero.
pub open spec fn fill_kept(market: Option<Seq<char>>) -> spec_fn(Json) -> bool {
    |row: Json| is_fill_row(row, market) && size_kept(row)
}

/// The rows of `rows` that `keep` keeps, in order.
pub open spec fn kept_rows(rows: Seq<Json>, keep: spec_fn(Json) -> bool) -> Seq<Json>
    decreases rows.len(),
{
    if rows.len() == 0 {
        Seq::empty()
    } else if keep(rows.last()) {
        kept_rows(rows.drop_last(), keep).push(rows.last())
    } else {
        kept_rows(rows.drop_last(), keep)
    }
}

/// Whether a row's size is kept.
fn size_kept_at(row: &Json) -> (r: bool)
    ensures
        r == size_kept(*row),
{
    match row.get_either("shares", "amount") {
        Some(v) => amount_text(v).is_some() && amount_kept_of(v),
        None => false,
    }
}

/// A page of a wallet's trades in market `market` (empty for any): the
/// rows that give a trade and whose size is above zero, in order, and the
/// cursor of the next page when this page of `rows` was full (`limit`
/// rows).
pub fn trades_page(rows: &Vec<Json>, market: &str, limit: usize, page: usize, now_ms: i64) -> (r: (
    Vec<MarketTrade>,
    Option<String>,
))
    requires
        page < usize::MAX,
    ensures
        r.0@.len() == kept_rows(rows@, trade_kept(market@)).len(),
        forall|i: int|
            0 <= i < r.0@.len() ==> is_trade_of(#[trigger] r.0@[i], kept_rows(rows@, trade_kept(market@))[i], now_ms),
        r.1 is Some <==> rows@.len() >= limit,
        r.1 matches Some(c) ==> c@ == decimal((page + 1) as nat),
{
    let ghost keep = trade_kept(market@);
    let mut out: Vec<MarketTrade> = Vec::new();
    let mut i: usize = 0;
    while i < rows.len()
        invariant
            i <= rows@.len(),
            keep == trade_kept(market@),
            out@.len() == kept_rows(rows@.take(i as int), keep).len(),
            forall|k: int|
                0 <= k < out@.len() ==> is_trade_of(#[trigger] out@[k], kept_rows(rows@.take(i as int), keep)[k], now_ms),
        decreases rows.len() - i,
    {
        assert(rows@.take(i + 1).drop_last() =~= rows@.take(i as int));
        assert(rows@.take(i + 1).last() == rows@[i as int]);
        let sized = size_kept_at(&rows[i]);
        match trade_of(&rows[i], market, now_ms) {
            Some(t) => {
                if sized {
                    out.push(t);
                }
            },
            None => {},
        }
        i = i + 1;
    }
    assert(rows@.take(rows@.len() as int) =~= rows@);
    (out, next_trade_cursor(rows.len(), limit, page))
}

/// The fills of a wallet's trade history in market `market` (any, for
/// `None`): the rows that give a fill and whose size is above zero, in
/// order, at most `limit` of them.
pub fn fills_list(rows: &Vec<Json>, market: Option<&str>, limit: usize, now_ms: i64) -> (r: Vec<Fill>)
    ensures
        ({
            let kept = kept_rows(
                rows@,
                fill_kept(
                    match market {
                        Some(m) => Some(m@),
                        None => None,
                    },
                ),
            );
            &&& r@.len() == (if kept.len() < limit {
                kept.len()
            } else {
                limit as nat
            })
            &&& forall|i: int| 0 <= i < r@.len() ==> is_fill_of(#[trigger] r@[i], kept[i], now_ms)
        }),
{
    let ghost m = match market {
        Some(m) => Some(m@),
        None => None,
    };
    let ghost keep = fill_kept(m);
    let mut out: Vec<Fill> = Vec::new();
    let mut i: usize = 0;
    while i < rows.len() && out.len() < limit
        invariant
            i <= rows@.len(),
            out@.len() <= limit,
            keep == fill_kept(m),
            m == (match market {
                Some(m) => Some(m@),
                None => None,
            }),
            out@.len() == kept_rows(rows@.take(i as int), keep).len(),
            forall|k: int|
                0 <= k < out@.len() ==> is_fill_of(#[trigger] out@[k], kept_rows(rows@.take(i as int), keep)[k], now_ms),
        decreases rows.len() - i,
    {
        assert(rows@.take(i + 1).drop_last() =~= rows@.take(i as int));
        assert(rows@.take(i + 1).last() == rows@[i as int]);
        let sized = size_kept_at(&rows[i]);
        match fill_of(&rows[i], market, now_ms) {
            Some(f) => {
                if sized {
                    out.push(f);
                }
            },
            None => {},
        }
        i = i + 1;
    }
    proof {
        lemma_kept_prefix(rows@, keep, i as int);
        if out@.len() < limit {
            assert(i == rows@.len());
            assert(rows@.take(rows@.len() as int) =~= rows@);
        }
    }
    out
}

/// The rows kept from a prefix are a prefix of the rows kept from the
/// whole.
proof fn lemma_kept_prefix(rows: Seq<Json>, keep: spec_fn(Json) -> bool, n: int)
    requires
        0 <= n <= rows.len(),
    ensures
        kept_rows(rows.take(n), keep).len() <= kept_rows(rows, keep).len(),
        forall|k: int|
            0 <= k < kept_rows(rows.take(n), keep).len() ==> #[trigger] kept_rows(rows.take(n), keep)[k]
                == kept_rows(rows, keep)[k],
    decreases rows.len() - n,
{
    if n < rows.len() {
        lemma_kept_prefix(rows, keep, n + 1);
        let t1 = rows.take(n + 1);
        assert(t1.drop_last() =~= rows.take(n));
        assert(kept_rows(t1, keep) == if keep(t1.last()) {
            kept_rows(rows.take(n), keep).push(t1.last())
        } else {
            kept_rows(rows.take(n), keep)
        });
        assert forall|k: int| 0 <= k < kept_rows(rows.take(n), keep).len() implies #[trigger] kept_rows(
            rows.take(n),
            keep,
        )[k] == kept_rows(rows, keep)[k] by {
            assert(kept_rows(rows.take(n), keep)[k] == kept_rows(t1, keep)[k]);
        }
    } else {
        assert(rows.take(n) =~= rows);
    }
}

} // verus!
