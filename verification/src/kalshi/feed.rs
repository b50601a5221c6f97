//! What each pushed Kalshi WebSocket message means: book snapshots and
//! deltas, public trades and the user's fills. Book arithmetic on sizes is
//! done by the caller; prices and sizes stay number text here.

use vstd::prelude::*;
use vstd::string::*;

use crate::events::{ActivityFill, ActivityTrade, BookSide, LiquidityRole};
use crate::json::{opt_view, str_field, Json};
use crate::opinion::api::aliased;
use crate::kalshi::ws::{id_text_of, ts_ms_of, value_to_string, value_to_ts_ms};
use crate::number::{amount_kept, amount_kept_of, is_float, is_float_text};
use crate::opinion::fields::{amount_text, amount_text_of, then_amount};
use crate::text::{ascii_lower_seq, eq_ignore_ascii_case, owned, str_eq};
use crate::time::{rfc3339_millis, spec_rfc3339_millis};

verus! {

/// The kinds of message the socket pushes.
#[derive(Debug, Clone, Copy, PartialEq, Eq, Structural)]
pub enum MessageKind {
    Snapshot,
    Delta,
    Trade,
    Fill,
    Subscribed,
    Unsubscribed,
    Error,
    Other,
}

/// The kind of a message by its `type` word.
pub open spec fn kind_of(t: Option<Seq<char>>) -> MessageKind {
    match t {
        Some(w) => if w == "orderbook_snapshot"@ {
            MessageKind::Snapshot
        } else if w == "orderbook_delta"@ {
            MessageKind::Delta
        } else if w == "trade"@ {
            MessageKind::Trade
        } else if w == "fill"@ {
            MessageKind::Fill
        } else if w == "subscribed"@ {
            MessageKind::Subscribed
        } else if w == "unsubscribed"@ {
            MessageKind::Unsubscribed
        } else if w == "error"@ {
            MessageKind::Error
        } else {
            MessageKind::Other
        },
        None => MessageKind::Other,
    }
}

/// Classifies a message.
pub fn message_kind(value: &Json) -> (r: MessageKind)
    ensures
        r == kind_of(str_field(*value, "type"@)),
{
    match value.get_str("type") {
        Some(w) => if str_eq(w, "orderbook_snapshot") {
            MessageKind::Snapshot
        } else if str_eq(w, "orderbook_delta") {
            MessageKind::Delta
        } else if str_eq(w, "trade") {
            MessageKind::Trade
        } else if str_eq(w, "fill") {
            MessageKind::Fill
        } else if str_eq(w, "subscribed") {
            MessageKind::Subscribed
        } else if str_eq(w, "unsubscribed") {
            MessageKind::Unsubscribed
        } else if str_eq(w, "error") {
            MessageKind::Error
        } else {
            MessageKind::Other
        },
        None => MessageKind::Other,
    }
}

/// The body of a trade or fill message: its `msg` member, else itself.
pub open spec fn body_of(value: Json) -> Json {
    match value.field("msg"@) {
        Some(m) => m,
        None => value,
    }
}

/// Whether `t` is the public trade a `trade` message gives.
pub open spec fn is_trade_message(t: ActivityTrade, value: Json) -> bool {
    let m = body_of(value);
    &&& (match crate::json::first_some(m.field("market_id"@), m.field("ticker"@)) {
        Some(v) => v.str_of() == Some(t.market_id@),
        None => false,
    })
    &&& t.asset_id@ == t.market_id@
    &&& opt_view(t.trade_id) == id_text_of(m.field("trade_id"@))
    &&& then_amount(m.field("yes_price_dollars"@)) == Some(t.price@)
    &&& opt_view(t.size) == then_amount(m.field("count_fp"@))
    &&& t.size is Some
    &&& t.side is None
    &&& opt_view(t.aggressor_side) == str_field(m, "taker_side"@)
    &&& t.outcome is None
    &&& t.fee_rate_bps is None
    &&& t.exchange_ts_ms == ts_ms_of(m.field("ts"@))
    &&& t.source_channel@ == "kalshi_public_trade"@
}

/// A trade message is read when its body names a market (`market_id`, else
/// `ticker`) and gives a price and a size.
pub open spec fn trade_readable(value: Json) -> bool {
    let m = body_of(value);
    &&& (match crate::json::first_some(m.field("market_id"@), m.field("ticker"@)) {
        Some(v) => v.str_of() is Some,
        None => false,
    })
    &&& then_amount(m.field("yes_price_dollars"@)) is Some
    &&& then_amount(m.field("count_fp"@)) is Some
}

/// An optional member as a number.
fn amount_of(v: Option<&Json>) -> (r: Option<String>)
    ensures
        opt_view(r) == then_amount(
            match v {
                Some(x) => Some(*x),
                None => None,
            },
        ),
{
    match v {
        Some(x) => amount_text(x),
        None => None,
    }
}

/// Reads a `trade` message.
pub fn trade_message(value: &Json) -> (r: Option<ActivityTrade>)
    ensures
        r is Some <==> trade_readable(*value),
        r matches Some(t) ==> is_trade_message(t, *value),
{
    let m = match value.get("msg") {
        Some(x) => x,
        None => value,
    };
    let market_id = match m.get_either("market_id", "ticker") {
        Some(v) => match v.as_str() {
            Some(s) => owned(s),
            None => return None,
        },
        None => return None,
    };
    let price = match amount_of(m.get("yes_price_dollars")) {
        Some(p) => p,
        None => return None,
    };
    let size = match amount_of(m.get("count_fp")) {
        Some(s) => s,
        None => return None,
    };
    let asset_id = market_id.clone();
    Some(
        ActivityTrade {
            market_id,
            asset_id,
            trade_id: value_to_string(m.get("trade_id")),
            price,
            size: Some(size),
            side: None,
            aggressor_side: m.get_string("taker_side"),
            outcome: None,
            fee_rate_bps: None,
            exchange_ts_ms: value_to_ts_ms(m.get("ts")),
            source_channel: owned("kalshi_public_trade"),
        },
    )
}

/// The liquidity role a fill reports: `is_taker` true takes, false makes.
pub open spec fn role_of(m: Json) -> Option<LiquidityRole> {
    match crate::kalshi::catalog::bool_field(m, "is_taker"@) {
        Some(true) => Some(LiquidityRole::Taker),
        Some(false) => Some(LiquidityRole::Maker),
        None => None,
    }
}

/// Reads the liquidity role of a fill body.
pub fn liquidity_role_of(m: &Json) -> (r: Option<LiquidityRole>)
    ensures
        r == role_of(*m),
{
    match m.get("is_taker") {
        Some(v) => match v.as_bool() {
            Some(true) => Some(LiquidityRole::Taker),
            Some(false) => Some(LiquidityRole::Maker),
            None => None,
        },
        None => None,
    }
}

/// Whether `f` is the fill a `fill` message gives.
pub open spec fn is_fill_message(f: ActivityFill, value: Json) -> bool {
    let m = body_of(value);
    &&& str_field(m, "market_id"@) == Some(f.market_id@)
    &&& f.asset_id@ == f.market_id@
    &&& opt_view(f.fill_id) == id_text_of(m.field("trade_id"@))
    &&& opt_view(f.order_id) == id_text_of(m.field("order_id"@))
    &&& then_amount(m.field("yes_price_dollars"@)) == Some(f.price@)
    &&& opt_view(f.size) == then_amount(m.field("count_fp"@))
    &&& f.size is Some
    &&& opt_view(f.side) == str_field(m, "action"@)
    &&& opt_view(f.outcome) == str_field(m, "side"@)
    &&& f.tx_hash is None
    &&& f.fee is None
    &&& f.exchange_ts_ms == ts_ms_of(m.field("ts"@))
    &&& f.source_channel@ == "kalshi_user_fill"@
    &&& f.liquidity_role == role_of(m)
}

/// A fill message is read when its body names a market and gives a price
/// and a size, neither of them at or below zero (a missing or unreadable
/// one counts as zero, and the fill is dropped).
pub open spec fn fill_readable(value: Json) -> bool {
    let m = body_of(value);
    &&& str_field(m, "market_id"@) is Some
    &&& then_amount(m.field("yes_price_dollars"@)) is Some
    &&& then_amount(m.field("count_fp"@)) is Some
    &&& amount_kept(m.field("yes_price_dollars"@).unwrap())
    &&& amount_kept(m.field("count_fp"@).unwrap())
}

/// Reads a `fill` message.
pub fn fill_message(value: &Json) -> (r: Option<ActivityFill>)
    ensures
        r is Some <==> fill_readable(*value),
        r matches Some(f) ==> is_fill_message(f, *value),
{
    let m = match value.get("msg") {
        Some(x) => x,
        None => value,
    };
    let market_id = match m.get_string("market_id") {
        Some(s) => s,
        None => return None,
    };
    let price = match amount_of(m.get("yes_price_dollars")) {
        Some(p) => p,
        None => return None,
    };
    let size = match amount_of(m.get("count_fp")) {
        Some(s) => s,
        None => return None,
    };
    match (m.get("yes_price_dollars"), m.get("count_fp")) {
        (Some(p), Some(c)) => {
            if !amount_kept_of(p) || !amount_kept_of(c) {
                return None;
            }
        },
        _ => return None,
    }
    let asset_id = market_id.clone();
    Some(
        ActivityFill {
            market_id,
            asset_id,
            fill_id: value_to_string(m.get("trade_id")),
            order_id: value_to_string(m.get("order_id")),
            price,
            size: Some(size),
            side: m.get_string("action"),
            outcome: m.get_string("side"),
            tx_hash: None,
            fee: None,
            exchange_ts_ms: value_to_ts_ms(m.get("ts")),
            source_channel: owned("kalshi_user_fill"),
            liquidity_role: liquidity_role_of(m),
        },
    )
}

/// A book delta: the level at `price` (dollar text) on the YES book moves
/// by `delta` contracts. A NO-side delta is an ask at the complement.
#[derive(Debug, Clone)]
pub struct BookDelta {
    pub market_ticker: String,
    pub price: String,
    pub delta: String,
    pub side: BookSide,
    pub complement: bool,
    pub ts_ms: Option<i64>,
}

/// The delta payload can be read: its string members are strings and its
/// `ts` is a string when given.
pub open spec fn delta_payload_ok(p: Json) -> bool {
    &&& p is Object
    &&& str_field(p, "market_ticker"@) is Some
    &&& str_field(p, "market_id"@) is Some
    &&& str_field(p, "price_dollars"@) is Some
    &&& str_field(p, "delta_fp"@) is Some
    &&& str_field(p, "side"@) is Some
    &&& (match p.field("ts"@) {
        None => true,
        Some(Json::Null) => true,
        Some(Json::Str(_)) => true,
        _ => false,
    })
}

/// A delta message is applied when its `msg` payload reads and both its
/// price and delta are numbers.
pub open spec fn delta_readable(value: Json) -> bool {
    match value.field("msg"@) {
        Some(p) => delta_payload_ok(p) && is_float_text(str_field(p, "price_dollars"@)->0)
            && is_float_text(str_field(p, "delta_fp"@)->0),
        None => false,
    }
}

/// Whether `d` is the delta an `orderbook_delta` message gives: YES (in any
/// ASCII case) moves a bid at the price, anything else an ask at the
/// complement.
pub open spec fn is_delta_of(d: BookDelta, value: Json) -> bool {
    let p = value.field("msg"@)->0;
    let yes = ascii_lower_seq(str_field(p, "side"@)->0) == ascii_lower_seq("yes"@);
    &&& str_field(p, "market_ticker"@) == Some(d.market_ticker@)
    &&& str_field(p, "price_dollars"@) == Some(d.price@)
    &&& str_field(p, "delta_fp"@) == Some(d.delta@)
    &&& d.side == (if yes {
        BookSide::Bid
    } else {
        BookSide::Ask
    })
    &&& d.complement == !yes
    &&& d.ts_ms == (match str_field(p, "ts"@) {
        Some(t) => spec_rfc3339_millis(t),
        None => None,
    })
}

/// Reads an `orderbook_delta` message.
pub fn delta_message(value: &Json) -> (r: Option<BookDelta>)
    ensures
        r is Some <==> delta_readable(*value),
        r matches Some(d) ==> is_delta_of(d, *value),
{
    let p = match value.get("msg") {
        Some(p) => p,
        None => return None,
    };
    match p {
        Json::Object(_) => {},
        _ => return None,
    }
    let market_ticker = match p.get_string("market_ticker") {
        Some(s) => s,
        None => return None,
    };
    if p.get_str("market_id").is_none() {
        return None;
    }
    let price = match p.get_str("price_dollars") {
        Some(s) => s,
        None => return None,
    };
    let delta = match p.get_str("delta_fp") {
        Some(s) => s,
        None => return None,
    };
    let side = match p.get_str("side") {
        Some(s) => s,
        None => return None,
    };
    let ts_ms = match p.get("ts") {
        None => None,
        Some(Json::Null) => None,
        Some(Json::Str(t)) => rfc3339_millis(t.as_str()),
        Some(_) => return None,
    };
    if !is_float(price) || !is_float(delta) {
        return None;
    }
    let yes = eq_ignore_ascii_case(side, "yes");
    Some(
        BookDelta {
            market_ticker,
            price: owned(price),
            delta: owned(delta),
            side: if yes {
                BookSide::Bid
            } else {
                BookSide::Ask
            },
            complement: !yes,
            ts_ms,
        },
    )
}

/// A snapshot: the YES and NO dollar levels as `[price, size]` text pairs.
/// NO levels are asks at the complement.
#[derive(Debug, Clone)]
pub struct BookSnapshot {
    pub market_ticker: String,
    pub yes: Vec<(String, String)>,
    pub no: Vec<(String, String)>,
    pub seq: Option<u64>,
}

/// A list of `[price, size]` string pairs, when `v` is one.
pub open spec fn level_pairs(v: Json) -> Option<Seq<(Seq<char>, Seq<char>)>> {
    match v {
        Json::Array(a) => if forall|i: int|
            0 <= i < a@.len() ==> #[trigger] pair_of(a@[i]) is Some {
            Some(a@.map_values(|x: Json| pair_of(x)->0))
        } else {
            None
        },
        _ => None,
    }
}

/// A `[price, size]` string pair.
pub open spec fn pair_of(v: Json) -> Option<(Seq<char>, Seq<char>)> {
    match v {
        Json::Array(a) => if a@.len() == 2 {
            match (a@[0].str_of(), a@[1].str_of()) {
                (Some(p), Some(s)) => Some((p, s)),
                _ => None,
            }
        } else {
            None
        },
        _ => None,
    }
}

/// The levels of an optional side: absent and `null` have none; `None`
/// when the side cannot be read.
pub open spec fn side_pairs(v: Option<Json>) -> Option<Seq<(Seq<char>, Seq<char>)>> {
    match v {
        None => Some(Seq::empty()),
        Some(Json::Null) => Some(Seq::empty()),
        Some(x) => level_pairs(x),
    }
}

/// The pairs as texts.
pub open spec fn pairs_view(v: Seq<(String, String)>) -> Seq<(Seq<char>, Seq<char>)> {
    v.map_values(|p: (String, String)| (p.0@, p.1@))
}

proof fn lemma_bad_pair(v: Json, i: int)
    requires
        v is Array,
        0 <= i < v->Array_0@.len(),
        pair_of(v->Array_0@[i]) is None,
    ensures
        level_pairs(v) is None,
{
    let a = v->Array_0@;
    if forall|k: int| 0 <= k < a.len() ==> #[trigger] pair_of(a[k]) is Some {
        assert(pair_of(a[i]) is Some);
    }
}

/// Reads an optional side of levels.
fn read_side(v: Option<&Json>) -> (r: Option<Vec<(String, String)>>)
    ensures
        match side_pairs(
            match v {
                Some(x) => Some(*x),
                None => None,
            },
        ) {
            Some(ps) => r matches Some(out) && pairs_view(out@) == ps,
            None => r is None,
        },
{
    let a = match v {
        None => return Some(Vec::new()),
        Some(Json::Null) => return Some(Vec::new()),
        Some(Json::Array(a)) => a,
        Some(_) => return None,
    };
    let mut out: Vec<(String, String)> = Vec::new();
    let mut i: usize = 0;
    while i < a.len()
        invariant
            i <= a.len(),
            v matches Some(x) && *x == Json::Array(*a),
            out@.len() == i,
            forall|k: int| 0 <= k < i ==> #[trigger] pair_of(a@[k]) == Some(pairs_view(out@)[k]),
        decreases a.len() - i,
    {
        let pair = match &a[i] {
            Json::Array(p) => if p.len() == 2 {
                match (p[0].as_str(), p[1].as_str()) {
                    (Some(x), Some(y)) => (owned(x), owned(y)),
                    _ => {
                        proof {
                            lemma_bad_pair(*v.unwrap(), i as int);
                        }
                        return None;
                    },
                }
            } else {
                proof {
                    lemma_bad_pair(*v.unwrap(), i as int);
                }
                return None;
            },
            _ => {
                proof {
                    lemma_bad_pair(*v.unwrap(), i as int);
                }
                return None;
            },
        };
        let ghost before = out@;
        out.push(pair);
        proof {
            assert forall|k: int| 0 <= k < i + 1 implies #[trigger] pair_of(a@[k]) == Some(
                pairs_view(out@)[k],
            ) by {
                if k < i {
                    assert(out@[k] == before[k]);
                }
            }
        }
        i = i + 1;
    }
    proof {
        assert(pairs_view(out@) =~= a@.map_values(|x: Json| pair_of(x)->0));
    }
    Some(out)
}

/// Whether `s` is the snapshot an `orderbook_snapshot` message gives.
pub open spec fn is_snapshot_of(s: BookSnapshot, value: Json) -> bool {
    let p = value.field("msg"@)->0;
    &&& str_field(p, "market_ticker"@) == Some(s.market_ticker@)
    &&& side_pairs(p.field("yes_dollars_fp"@)) == Some(pairs_view(s.yes@))
    &&& side_pairs(p.field("no_dollars_fp"@)) == Some(pairs_view(s.no@))
    &&& s.seq == (match value.field("seq"@) {
        Some(v) => v.u64_of(),
        None => None,
    })
}

/// A snapshot message is read when its `msg` payload names the market by
/// ticker and id and both sides read.
pub open spec fn snapshot_readable(value: Json) -> bool {
    match value.field("msg"@) {
        Some(p) => p is Object && str_field(p, "market_ticker"@) is Some && str_field(
            p,
            "market_id"@,
        ) is Some && side_pairs(p.field("yes_dollars_fp"@)) is Some && side_pairs(
            p.field("no_dollars_fp"@),
        ) is Some,
        None => false,
    }
}

/// Reads an `orderbook_snapshot` message.
pub fn snapshot_message(value: &Json) -> (r: Option<BookSnapshot>)
    ensures
        r is Some <==> snapshot_readable(*value),
        r matches Some(s) ==> is_snapshot_of(s, *value),
{
    let p = match value.get("msg") {
        Some(p) => p,
        None => return None,
    };
    match p {
        Json::Object(_) => {},
        _ => return None,
    }
    let market_ticker = match p.get_string("market_ticker") {
        Some(s) => s,
        None => return None,
    };
    if p.get_str("market_id").is_none() {
        return None;
    }
    let yes = match read_side(p.get("yes_dollars_fp")) {
        Some(v) => v,
        None => return None,
    };
    let no = match read_side(p.get("no_dollars_fp")) {
        Some(v) => v,
        None => return None,
    };
    let seq = match value.get("seq") {
        Some(v) => v.as_u64(),
        None => None,
    };
    Some(BookSnapshot { market_ticker, yes, no, seq })
}

/// The one member among a name and its alias; `None` inside when neither
/// is given, `None` outside when both are.
fn alias_at<'a>(j: &'a Json, a: &str, b: &str) -> (r: Option<Option<&'a Json>>)
    ensures
        match r {
            None => aliased(*j, a@, b@) is None,
            Some(None) => aliased(*j, a@, b@) == Some(None::<Json>),
            Some(Some(x)) => aliased(*j, a@, b@) == Some(Some(*x)),
        },
{
    match (j.get(a), j.get(b)) {
        (Some(_), Some(_)) => None,
        (Some(x), None) => Some(Some(x)),
        (None, Some(y)) => Some(Some(y)),
        (None, None) => Some(None),
    }
}

/// The YES and NO level pairs of an order book object (`yes_dollars` or
/// `yes`, `no_dollars` or `no`; an absent or `null` side has none); `None`
/// when it is not an object or a side does not read.
pub open spec fn book_sides(d: Json) -> Option<(Seq<(Seq<char>, Seq<char>)>, Seq<(Seq<char>, Seq<char>)>)> {
    if !(d is Object) {
        None
    } else {
        match (aliased(d, "yes_dollars"@, "yes"@), aliased(d, "no_dollars"@, "no"@)) {
            (Some(y), Some(n)) => match (side_pairs(y), side_pairs(n)) {
                (Some(yp), Some(np)) => Some((yp, np)),
                _ => None,
            },
            _ => None,
        }
    }
}

/// Reads an order book object.
fn read_book(d: &Json) -> (r: Option<(Vec<(String, String)>, Vec<(String, String)>)>)
    ensures
        match book_sides(*d) {
            Some((y, n)) => r matches Some((yo, no)) && pairs_view(yo@) == y && pairs_view(no@) == n,
            None => r is None,
        },
{
    match d {
        Json::Object(_) => {},
        _ => return None,
    }
    let y = match alias_at(d, "yes_dollars", "yes") {
        Some(y) => y,
        None => return None,
    };
    let n = match alias_at(d, "no_dollars", "no") {
        Some(n) => n,
        None => return None,
    };
    match (read_side(y), read_side(n)) {
        (Some(yo), Some(no)) => Some((yo, no)),
        _ => None,
    }
}

/// The sides of a market's order book reply: its `orderbook_fp` (or
/// `orderbook`) object, which must be given.
pub open spec fn book_reply_sides(body: Json) -> Option<(Seq<(Seq<char>, Seq<char>)>, Seq<(Seq<char>, Seq<char>)>)> {
    if !(body is Object) {
        None
    } else {
        match aliased(body, "orderbook_fp"@, "orderbook"@) {
            Some(Some(d)) => book_sides(d),
            _ => None,
        }
    }
}

/// Reads the reply of a market's order book request: the YES and NO
/// levels as `[price, size]` texts.
pub fn orderbook_reply(body: &Json) -> (r: Option<(Vec<(String, String)>, Vec<(String, String)>)>)
    ensures
        match book_reply_sides(*body) {
            Some((y, n)) => r matches Some((yo, no)) && pairs_view(yo@) == y && pairs_view(no@) == n,
            None => r is None,
        },
{
    match body {
        Json::Object(_) => {},
        _ => return None,
    }
    match alias_at(body, "orderbook_fp", "orderbook") {
        Some(Some(d)) => read_book(d),
        _ => None,
    }
}

/// One entry of a batched order book reply: its ticker and, when its book
/// is given (not absent, not `null`), the sides.
pub open spec fn batch_book_of(e: Json) -> Option<(Seq<char>, Option<(Seq<(Seq<char>, Seq<char>)>, Seq<(Seq<char>, Seq<char>)>)>)> {
    if !(e is Object) {
        None
    } else {
        match (str_field(e, "ticker"@), aliased(e, "orderbook_fp"@, "orderbook"@)) {
            (Some(t), Some(None)) => Some((t, None)),
            (Some(t), Some(Some(Json::Null))) => Some((t, None)),
            (Some(t), Some(Some(d))) => match book_sides(d) {
                Some(b) => Some((t, Some(b))),
                None => None,
            },
            _ => None,
        }
    }
}

/// A batched book as plain values: the ticker and the YES and NO pairs
/// (none when its book was not given).
pub type BatchBook = (String, Option<(Vec<(String, String)>, Vec<(String, String)>)>);

/// The view of a batched book.
pub open spec fn batch_book_view(b: BatchBook) -> (Seq<char>, Option<(Seq<(Seq<char>, Seq<char>)>, Seq<(Seq<char>, Seq<char>)>)>) {
    (b.0@, match b.1 {
        Some((y, n)) => Some((pairs_view(y@), pairs_view(n@))),
        None => None,
    })
}

/// The entries of a batched order book reply, when every one reads:
/// `orderbooks` (absent reads as none).
pub open spec fn batch_entries(body: Json) -> Option<Seq<Json>> {
    if !(body is Object) {
        None
    } else {
        match body.field("orderbooks"@) {
            None => Some(Seq::empty()),
            Some(Json::Array(a)) => if forall|i: int| 0 <= i < a@.len() ==> #[trigger] batch_book_of(a@[i]) is Some {
                Some(a@)
            } else {
                None
            },
            _ => None,
        }
    }
}

/// Reads the reply of a batched order book request: one book per entry, in
/// order; `None` when the reply or an entry does not read.
pub fn orderbooks_reply(body: &Json) -> (r: Option<Vec<BatchBook>>)
    ensures
        match batch_entries(*body) {
            Some(es) => r matches Some(out) && out@.len() == es.len() && forall|i: int|
                0 <= i < es.len() ==> Some(batch_book_view(#[trigger] out@[i])) == batch_book_of(es[i]),
            None => r is None,
        },
{
    match body {
        Json::Object(_) => {},
        _ => return None,
    }
    let a = match body.get("orderbooks") {
        None => return Some(Vec::new()),
        Some(Json::Array(a)) => a,
        Some(_) => return None,
    };
    let mut out: Vec<BatchBook> = Vec::new();
    let mut i: usize = 0;
    while i < a.len()
        invariant
            i <= a@.len(),
            body.field("orderbooks"@) == Some(Json::Array(*a)),
            out@.len() == i,
            forall|k: int| 0 <= k < i ==> Some(batch_book_view(#[trigger] out@[k])) == batch_book_of(a@[k]),
        decreases a.len() - i,
    {
        let e = &a[i];
        let ok: Option<BatchBook> = match e {
            Json::Object(_) => match (e.get_string("ticker"), alias_at(e, "orderbook_fp", "orderbook")) {
                (Some(t), Some(None)) => Some((t, None)),
                (Some(t), Some(Some(Json::Null))) => Some((t, None)),
                (Some(t), Some(Some(d))) => match read_book(d) {
                    Some(b) => Some((t, Some(b))),
                    None => None,
                },
                _ => None,
            },
            _ => None,
        };
        match ok {
            Some(b) => {
                let ghost before = out@;
                out.push(b);
                assert forall|k: int| 0 <= k < i + 1 implies Some(batch_book_view(#[trigger] out@[k]))
                    == batch_book_of(a@[k]) by {
                    if k < i {
                        assert(out@[k] == before[k]);
                    }
                }
            },
            None => {
                assert(batch_book_of(a@[i as int]) is None);
                assert(batch_entries(*body) is None);
                return None;
            },
        }
        i = i + 1;
    }
    assert forall|k: int| 0 <= k < a@.len() implies #[trigger] batch_book_of(a@[k]) is Some by {
        assert(Some(batch_book_view(out@[k])) == batch_book_of(a@[k]));
    }
    assert(batch_entries(*body) == Some(a@));
    Some(out)
}

/// Each Kalshi message type word has its own kind, and only that word
/// gives it; any other word, or no word, is `Other`.
pub proof fn lemma_kind_words(w: Seq<char>)
    ensures
        kind_of(Some(w)) == MessageKind::Snapshot <==> w == "orderbook_snapshot"@,
        kind_of(Some(w)) == MessageKind::Delta <==> w == "orderbook_delta"@,
        kind_of(Some(w)) == MessageKind::Trade <==> w == "trade"@,
        kind_of(Some(w)) == MessageKind::Fill <==> w == "fill"@,
        kind_of(Some(w)) == MessageKind::Subscribed <==> w == "subscribed"@,
        kind_of(Some(w)) == MessageKind::Unsubscribed <==> w == "unsubscribed"@,
        kind_of(Some(w)) == MessageKind::Error <==> w == "error"@,
        kind_of(Some(w)) == MessageKind::Other <==> !(w == "orderbook_snapshot"@ || w == "orderbook_delta"@
            || w == "trade"@ || w == "fill"@ || w == "subscribed"@ || w == "unsubscribed"@ || w
            == "error"@),
        kind_of(None) == MessageKind::Other,
{
    reveal_strlit("orderbook_snapshot");
    reveal_strlit("orderbook_delta");
    reveal_strlit("trade");
    reveal_strlit("fill");
    reveal_strlit("subscribed");
    reveal_strlit("unsubscribed");
    reveal_strlit("error");
    assert("orderbook_snapshot"@.len() != "orderbook_delta"@.len());
    assert("orderbook_snapshot"@.len() != "trade"@.len());
    assert("orderbook_snapshot"@.len() != "fill"@.len());
    assert("orderbook_snapshot"@.len() != "subscribed"@.len());
    assert("orderbook_snapshot"@.len() != "unsubscribed"@.len());
    assert("orderbook_snapshot"@.len() != "error"@.len());
    assert("orderbook_delta"@.len() != "trade"@.len());
    assert("orderbook_delta"@.len() != "fill"@.len());
    assert("orderbook_delta"@.len() != "subscribed"@.len());
    assert("orderbook_delta"@.len() != "unsubscribed"@.len());
    assert("orderbook_delta"@.len() != "error"@.len());
    assert("trade"@.len() != "fill"@.len());
    assert("trade"@.len() != "subscribed"@.len());
    assert("trade"@.len() != "unsubscribed"@.len());
    assert("trade"@[0] != "error"@[0]);
    assert("fill"@.len() != "subscribed"@.len());
    assert("fill"@.len() != "unsubscribed"@.len());
    assert("fill"@.len() != "error"@.len());
    assert("subscribed"@.len() != "unsubscribed"@.len());
    assert("subscribed"@.len() != "error"@.len());
    assert("unsubscribed"@.len() != "error"@.len());
}

/// A fill's `is_taker` flag gives its role: true takes, false makes, and
/// the two differ; a missing or non-boolean flag gives none.
pub proof fn lemma_role_of_flag(m: Json)
    ensures
        crate::kalshi::catalog::bool_field(m, "is_taker"@) == Some(true) ==> role_of(m) == Some(
            LiquidityRole::Taker,
        ),
        crate::kalshi::catalog::bool_field(m, "is_taker"@) == Some(false) ==> role_of(m) == Some(
            LiquidityRole::Maker,
        ),
        role_of(m) is None <==> crate::kalshi::catalog::bool_field(m, "is_taker"@) is None,
        LiquidityRole::Taker != LiquidityRole::Maker,
{
}

} // verus!
