//! Kalshi order placement and cancellation: the wire words, the request
//! bodies, and what the replies say was placed or cancelled.

use vstd::prelude::*;
use vstd::string::*;

use crate::json::{
    collect_keyed_strs, int_json, keyed_strs, members_view, opt_view, str_field, Json, Scalar,
};
use crate::kalshi::catalog::text_or_empty;
use crate::models::{price_view, NewOrder, Order, OrderOutcome, OrderSide, OrderStatus, OrderType, Price};
use crate::number::{float_field, float_text_at};
use crate::text::{ascii_lower_seq, eq_ignore_ascii_case, owned, str_eq};
use crate::time::rfc3339_field;

verus! {

/// Kalshi's `time_in_force` word for an order type.
pub open spec fn tif_text(t: OrderType) -> Seq<char> {
    match t {
        OrderType::Gtc => "good_till_canceled"@,
        OrderType::Fok => "fill_or_kill"@,
        OrderType::Ioc => "immediate_or_cancel"@,
    }
}

/// Maps an order type to Kalshi's `time_in_force`; every type has one.
pub fn unified_to_kalshi_tif(t: OrderType) -> (r: Option<&'static str>)
    ensures
        r matches Some(w) && w@ == tif_text(t),
{
    match t {
        OrderType::Gtc => Some("good_till_canceled"),
        OrderType::Fok => Some("fill_or_kill"),
        OrderType::Ioc => Some("immediate_or_cancel"),
    }
}

/// The side of Kalshi's single YES-frame book an intent goes to, and whether
/// its price is mirrored (`1 - p`): buying YES bids, selling YES asks, and a
/// NO intent is the opposite side of YES at the mirrored price.
pub open spec fn v2_side_of(outcome: OrderOutcome, side: OrderSide) -> (Seq<char>, bool) {
    match (outcome, side) {
        (OrderOutcome::Yes, OrderSide::Buy) => ("bid"@, false),
        (OrderOutcome::Yes, OrderSide::Sell) => ("ask"@, false),
        (OrderOutcome::No, OrderSide::Buy) => ("ask"@, true),
        (OrderOutcome::No, OrderSide::Sell) => ("bid"@, true),
    }
}

/// The book side and price mirroring of an order intent.
pub fn v2_side(outcome: OrderOutcome, side: OrderSide) -> (r: (&'static str, bool))
    ensures
        (r.0@, r.1) == v2_side_of(outcome, side),
{
    match (outcome, side) {
        (OrderOutcome::Yes, OrderSide::Buy) => ("bid", false),
        (OrderOutcome::Yes, OrderSide::Sell) => ("ask", false),
        (OrderOutcome::No, OrderSide::Buy) => ("ask", true),
        (OrderOutcome::No, OrderSide::Sell) => ("bid", true),
    }
}

/// The `action` word of an order side.
pub open spec fn action_text(s: OrderSide) -> Seq<char> {
    match s {
        OrderSide::Buy => "buy"@,
        OrderSide::Sell => "sell"@,
    }
}

/// Whether an order is for NO: its outcome is `no` in any ASCII case.
pub open spec fn is_no_order(o: NewOrder) -> bool {
    ascii_lower_seq(o.outcome@) == ascii_lower_seq("no"@)
}

/// A member present only with a value.
pub open spec fn opt_member(key: Seq<char>, v: Option<Scalar>) -> Seq<(Seq<char>, Scalar)> {
    match v {
        Some(x) => seq![(key, x)],
        None => Seq::empty(),
    }
}

/// The members every batch entry for `o` has, in the order written.
pub open spec fn entry_head(o: NewOrder) -> Seq<(Seq<char>, Scalar)> {
    let no = is_no_order(o);
    seq![
        ("ticker"@, Scalar::Text(o.market_ticker@)),
        ("side"@, Scalar::Text(if no { "no"@ } else { "yes"@ })),
        ("action"@, Scalar::Text(action_text(o.side))),
        (if no { "no_price_dollars"@ } else { "yes_price_dollars"@ }, Scalar::Text(o.price@)),
        ("count_fp"@, Scalar::Text(o.size@)),
        ("type"@, Scalar::Text("limit"@)),
        ("time_in_force"@, Scalar::Text(tif_text(o.order_type))),
    ]
}

/// The optional flags of `o` that are set.
pub open spec fn entry_flags(o: NewOrder) -> Seq<(Seq<char>, Scalar)> {
    opt_member(
        "post_only"@,
        match o.post_only {
            Some(b) => Some(Scalar::Flag(b)),
            None => None,
        },
    ) + opt_member(
        "reduce_only"@,
        match o.reduce_only {
            Some(b) => Some(Scalar::Flag(b)),
            None => None,
        },
    )
}

/// The client id and expiry (in milliseconds) of `o`, where given.
pub open spec fn entry_tail(o: NewOrder) -> Seq<(Seq<char>, Scalar)> {
    opt_member(
        "client_order_id"@,
        match o.client_order_id {
            Some(c) => Some(Scalar::Text(c@)),
            None => None,
        },
    ) + opt_member(
        "expiration_ts"@,
        match o.expiration_ts {
            Some(t) => Some(Scalar::Int(t * 1000)),
            None => None,
        },
    )
}

/// The members of the batch entry for `o`, in the order they are written.
pub open spec fn entry_members(o: NewOrder) -> Seq<(Seq<char>, Scalar)> {
    entry_head(o) + entry_flags(o) + entry_tail(o)
}

/// Expiry times are seconds sent as milliseconds; they must stay in range.
pub open spec fn expiry_fits(o: NewOrder) -> bool {
    o.expiration_ts matches Some(t) ==> i64::MIN <= t * 1000 <= i64::MAX
}

/// Appends a member.
fn push_member(m: &mut Vec<(String, Json)>, key: &str, value: Json)
    ensures
        members_view(final(m)@) == members_view(old(m)@).push((key@, crate::json::scalar_of(value))),
{
    let ghost v = value;
    m.push((key.to_owned(), value));
    assert(members_view(m@) =~= members_view(old(m)@).push((key@, crate::json::scalar_of(v))));
}

/// The members every entry has.
fn push_head(m: &mut Vec<(String, Json)>, o: &NewOrder)
    ensures
        members_view(final(m)@) == members_view(old(m)@) + entry_head(*o),
{
    let no = eq_ignore_ascii_case(o.outcome.as_str(), "no");
    push_member(m, "ticker", Json::Str(o.market_ticker.clone()));
    push_member(m, "side", Json::Str(owned(if no { "no" } else { "yes" })));
    let action = match o.side {
        OrderSide::Buy => "buy",
        OrderSide::Sell => "sell",
    };
    push_member(m, "action", Json::Str(owned(action)));
    push_member(m, if no { "no_price_dollars" } else { "yes_price_dollars" }, Json::Str(o.price.clone()));
    push_member(m, "count_fp", Json::Str(o.size.clone()));
    push_member(m, "type", Json::Str(owned("limit")));
    let tif = match unified_to_kalshi_tif(o.order_type) {
        Some(w) => w,
        None => "good_till_canceled",
    };
    push_member(m, "time_in_force", Json::Str(owned(tif)));
    assert(members_view(m@) =~= members_view(old(m)@) + entry_head(*o));
}

/// The optional flags.
fn push_flags(m: &mut Vec<(String, Json)>, o: &NewOrder)
    ensures
        members_view(final(m)@) == members_view(old(m)@) + entry_flags(*o),
{
    match o.post_only {
        Some(b) => push_member(m, "post_only", Json::Bool(b)),
        None => {},
    }
    match o.reduce_only {
        Some(b) => push_member(m, "reduce_only", Json::Bool(b)),
        None => {},
    }
    assert(members_view(m@) =~= members_view(old(m)@) + entry_flags(*o));
}

/// The client id and expiry.
fn push_tail(m: &mut Vec<(String, Json)>, o: &NewOrder)
    requires
        expiry_fits(*o),
    ensures
        members_view(final(m)@) == members_view(old(m)@) + entry_tail(*o),
{
    match &o.client_order_id {
        Some(c) => push_member(m, "client_order_id", Json::Str(c.clone())),
        None => {},
    }
    match o.expiration_ts {
        Some(t) => push_member(m, "expiration_ts", int_json(t * 1000)),
        None => {},
    }
    assert(members_view(m@) =~= members_view(old(m)@) + entry_tail(*o));
}

/// The batch entry placing `o` as a limit order.
pub fn batch_entry(o: &NewOrder) -> (r: Json)
    requires
        expiry_fits(*o),
    ensures
        is_entry_for(r, *o),
{
    let mut m: Vec<(String, Json)> = Vec::new();
    push_head(&mut m, o);
    push_flags(&mut m, o);
    push_tail(&mut m, o);
    assert(members_view(m@) =~= entry_members(*o));
    Json::Object(m)
}

/// Whether `e` is the batch entry for `o`.
pub open spec fn is_entry_for(e: Json, o: NewOrder) -> bool {
    e matches Json::Object(em) && members_view(em@) == entry_members(o)
}

/// Whether `body` is `{"orders": [..]}` with one entry per order, in order.
pub open spec fn is_batch_body(body: Json, orders: Seq<NewOrder>) -> bool {
    &&& body matches Json::Object(m) && m@.len() == 1 && m@[0].0@ == "orders"@
    &&& body.field("orders"@) matches Some(Json::Array(es)) && es@.len() == orders.len() && (
    forall|i: int| 0 <= i < orders.len() ==> is_entry_for(#[trigger] es@[i], orders[i]))
}

/// The body of a batched order placement.
pub fn batch_create_body(orders: &Vec<NewOrder>) -> (r: Json)
    requires
        forall|i: int| 0 <= i < orders@.len() ==> expiry_fits(#[trigger] orders@[i]),
    ensures
        is_batch_body(r, orders@),
{
    let mut es: Vec<Json> = Vec::new();
    let mut i: usize = 0;
    while i < orders.len()
        invariant
            i <= orders.len(),
            es@.len() == i,
            forall|k: int| 0 <= k < orders@.len() ==> expiry_fits(#[trigger] orders@[k]),
            forall|k: int| 0 <= k < i ==> is_entry_for(#[trigger] es@[k], orders@[k]),
        decreases orders.len() - i,
    {
        let e = batch_entry(&orders[i]);
        es.push(e);
        i = i + 1;
    }
    let mut m: Vec<(String, Json)> = Vec::new();
    m.push((owned("orders"), Json::Array(es)));
    let r = Json::Object(m);
    proof {
        reveal_strlit("orders");
        assert(crate::json::member_index(m@, "orders"@, 0) == 0);
    }
    r
}

/// An optional member that must be a string when given: absent and `null`
/// read as none, other values make the reply unreadable.
pub open spec fn opt_text_ok(v: Option<Json>) -> bool {
    match v {
        None => true,
        Some(Json::Null) => true,
        Some(Json::Str(_)) => true,
        _ => false,
    }
}

/// A member given and not `null`.
pub open spec fn present(v: Option<Json>) -> bool {
    match v {
        None => false,
        Some(Json::Null) => false,
        Some(_) => true,
    }
}

/// An entry of a batched placement reply can be read.
pub open spec fn created_entry_ok(e: Json) -> bool {
    e is Object && opt_text_ok(e.field("client_order_id"@))
}

/// The order object an entry of a batched placement reply carries, when
/// the entry reports no error.
pub open spec fn created_order_of(e: Json) -> Option<Json> {
    if present(e.field("error"@)) {
        None
    } else {
        match e.field("order"@) {
            Some(o) => if o is Object {
                Some(o)
            } else {
                None
            },
            None => None,
        }
    }
}

/// The order objects of the entries, in order, skipping rejected entries.
pub open spec fn created_orders(es: Seq<Json>) -> Seq<Json>
    decreases es.len(),
{
    if es.len() == 0 {
        Seq::empty()
    } else {
        let rest = created_orders(es.drop_last());
        match created_order_of(es.last()) {
            Some(o) => rest.push(o),
            None => rest,
        }
    }
}

/// The entries of a reply's `orders` member: none when it is absent; `None`
/// when the reply cannot be read.
pub open spec fn reply_entries(reply: Json) -> Option<Seq<Json>> {
    if reply is Object {
        match reply.field("orders"@) {
            None => Some(Seq::empty()),
            Some(Json::Array(a)) => Some(a@),
            _ => None,
        }
    } else {
        None
    }
}

/// Every entry of a batched placement reply can be read.
pub open spec fn created_reply_ok(reply: Json) -> bool {
    match reply_entries(reply) {
        Some(es) => forall|i: int| #![trigger es[i]] 0 <= i < es.len() ==> created_entry_ok(es[i]),
        None => false,
    }
}

/// Every entry of a batched cancellation reply can be read.
pub open spec fn cancel_reply_ok(reply: Json) -> bool {
    match reply_entries(reply) {
        Some(es) => forall|i: int| #![trigger es[i]] 0 <= i < es.len() ==> cancel_entry_ok(es[i]),
        None => false,
    }
}

proof fn lemma_bad_entry(reply: Json, es: Seq<Json>, i: int)
    requires
        reply_entries(reply) == Some(es),
        0 <= i < es.len(),
        !created_entry_ok(es[i]) || !cancel_entry_ok(es[i]),
    ensures
        !created_entry_ok(es[i]) ==> !created_reply_ok(reply),
        !cancel_entry_ok(es[i]) ==> !cancel_reply_ok(reply),
{
    if created_reply_ok(reply) {
        let es2 = reply_entries(reply)->0;
        assert(es2 == es);
        assert(forall|k: int| #![trigger es2[k]] 0 <= k < es2.len() ==> created_entry_ok(es2[k]));
        assert(created_entry_ok(es2[i]));
        assert(created_entry_ok(es[i]));
    }
    if cancel_reply_ok(reply) {
        assert(cancel_entry_ok(es[i]));
    }
}

/// Status words of a placement reply.
pub open spec fn created_status(w: Option<Seq<char>>) -> OrderStatus {
    if w == Some("canceled"@) {
        OrderStatus::Cancelled
    } else if w == Some("executed"@) {
        OrderStatus::Filled
    } else {
        OrderStatus::Open
    }
}

/// Whether `o` is the placed order the order object `j` of a batched
/// placement reply describes; `now` stands in for a missing creation time.
pub open spec fn is_created_order(o: Order, j: Json, now: i64) -> bool {
    &&& o.id@ == text_or_empty(str_field(j, "order_id"@))
    &&& o.market_ticker@ == text_or_empty(str_field(j, "ticker"@))
    &&& o.outcome@ == (match str_field(j, "side"@) {
        Some(s) => if ascii_lower_seq(s) == ascii_lower_seq("no"@) {
            "No"@
        } else {
            "Yes"@
        },
        None => Seq::empty(),
    })
    &&& o.side == (if str_field(j, "action"@) == Some("sell"@) {
        OrderSide::Sell
    } else {
        OrderSide::Buy
    })
    &&& price_view(o.price) == (match crate::json::first_some(
        float_field(j, "yes_price_dollars"@),
        float_field(j, "no_price_dollars"@),
    ) {
        Some(t) => Some((true, t)),
        None => None,
    })
    &&& opt_view(o.size) == float_field(j, "initial_count_fp"@)
    &&& opt_view(o.filled) == float_field(j, "fill_count_fp"@)
    &&& o.fee is None
    &&& o.status == created_status(str_field(j, "status"@))
    &&& o.created_at == (match rfc3339_field(j, "created_time"@) {
        Some(t) => t,
        None => now,
    })
    &&& o.updated_at is None
}

/// Reads one placed order object.
fn created_order(j: &Json, now_ms: i64) -> (r: Order)
    ensures
        is_created_order(r, *j, now_ms),
{
    proof {
        reveal_strlit("");
    }
    let outcome = match j.get_str("side") {
        Some(s) => if eq_ignore_ascii_case(s, "no") {
            owned("No")
        } else {
            owned("Yes")
        },
        None => owned(""),
    };
    let side = match j.get_str("action") {
        Some(a) => if str_eq(a, "sell") {
            OrderSide::Sell
        } else {
            OrderSide::Buy
        },
        None => OrderSide::Buy,
    };
    let price = match float_text_at(j, "yes_price_dollars") {
        Some(t) => Some(Price::Decimal(t)),
        None => match float_text_at(j, "no_price_dollars") {
            Some(t) => Some(Price::Decimal(t)),
            None => None,
        },
    };
    let status = match j.get_str("status") {
        Some(w) => if str_eq(w, "canceled") {
            OrderStatus::Cancelled
        } else if str_eq(w, "executed") {
            OrderStatus::Filled
        } else {
            OrderStatus::Open
        },
        None => OrderStatus::Open,
    };
    let created_at = match crate::time::rfc3339_at(j, "created_time") {
        Some(t) => t,
        None => now_ms,
    };
    let id = match j.get_str("order_id") {
        Some(t) => owned(t),
        None => owned(""),
    };
    let market_ticker = match j.get_str("ticker") {
        Some(t) => owned(t),
        None => owned(""),
    };
    assert(outcome@ == (match str_field(*j, "side"@) {
        Some(s) => if ascii_lower_seq(s) == ascii_lower_seq("no"@) {
            "No"@
        } else {
            "Yes"@
        },
        None => Seq::empty(),
    }));
    assert(id@ == text_or_empty(str_field(*j, "order_id"@)));
    assert(market_ticker@ == text_or_empty(str_field(*j, "ticker"@)));
    assert(status == created_status(str_field(*j, "status"@)));
    Order {
        id,
        market_ticker,
        outcome,
        side,
        price,
        size: float_text_at(j, "initial_count_fp"),
        filled: float_text_at(j, "fill_count_fp"),
        fee: None,
        status,
        created_at,
        updated_at: None,
    }
}

/// Whether `os` are the placed orders of the objects `js`, in order.
pub open spec fn created_match(os: Seq<Order>, js: Seq<Json>, now: i64) -> bool {
    &&& os.len() == js.len()
    &&& forall|i: int| 0 <= i < os.len() ==> is_created_order(#[trigger] os[i], js[i], now)
}

/// The orders a batched placement reply reports as placed, in order;
/// rejected entries are left out. `None` when the reply cannot be read.
pub fn parse_batch_created(reply: &Json, now_ms: i64) -> (r: Option<Vec<Order>>)
    ensures
        r is Some <==> created_reply_ok(*reply),
        r matches Some(os) ==> (reply_entries(*reply) matches Some(es) && created_match(
            os@,
            created_orders(es),
            now_ms,
        )),
{
    let es: &Vec<Json> = match reply {
        Json::Object(_) => match reply.get("orders") {
            None => {
                let r: Vec<Order> = Vec::new();
                assert(created_orders(Seq::<Json>::empty()) =~= Seq::<Json>::empty());
                return Some(r);
            },
            Some(Json::Array(a)) => a,
            Some(_) => return None,
        },
        _ => return None,
    };
    let mut out: Vec<Order> = Vec::new();
    let mut i: usize = 0;
    while i < es.len()
        invariant
            i <= es.len(),
            reply_entries(*reply) == Some(es@),
            forall|k: int| 0 <= k < i ==> created_entry_ok(#[trigger] es@[k]),
            created_match(out@, created_orders(es@.take(i as int)), now_ms),
        decreases es.len() - i,
    {
        assert(es@.take(i + 1).drop_last() =~= es@.take(i as int));
        assert(es@.take(i + 1).last() == es@[i as int]);
        let e = &es[i];
        let ok = match e {
            Json::Object(_) => match e.get("client_order_id") {
                None => true,
                Some(Json::Null) => true,
                Some(Json::Str(_)) => true,
                Some(_) => false,
            },
            _ => false,
        };
        if !ok {
            assert(!created_entry_ok(es@[i as int]));
            proof {
                lemma_bad_entry(*reply, es@, i as int);
            }
            return None;
        }
        let rejected = match e.get("error") {
            None => false,
            Some(Json::Null) => false,
            Some(_) => true,
        };
        if !rejected {
            match e.get("order") {
                Some(o) => match o {
                    Json::Object(_) => {
                        let ord = created_order(o, now_ms);
                        out.push(ord);
                    },
                    _ => {},
                },
                None => {},
            }
        }
        i = i + 1;
    }
    assert(es@.take(es.len() as int) =~= es@);
    Some(out)
}

/// The request listing resting orders, optionally of one market, from a
/// page cursor.
pub open spec fn resting_orders_path_of(ticker: Option<Seq<char>>, cursor: Option<Seq<char>>) -> Seq<char> {
    "/portfolio/orders?status=resting&limit=1000"@ + crate::kalshi::listing::opt_part(
        "ticker"@,
        ticker,
    ) + crate::kalshi::listing::opt_part("cursor"@, cursor)
}

/// Builds the request listing resting orders.
pub fn resting_orders_path(ticker: Option<&str>, cursor: Option<&str>) -> (r: String)
    ensures
        r@ == resting_orders_path_of(
            match ticker {
                Some(t) => Some(t@),
                None => None,
            },
            match cursor {
                Some(c) => Some(c@),
                None => None,
            },
        ),
{
    let mut out = owned("/portfolio/orders?status=resting&limit=1000");
    let ghost base = out@;
    match ticker {
        Some(t) => crate::kalshi::listing::push_query(&mut out, "ticker", t),
        None => {},
    }
    let ghost mid = out@;
    match cursor {
        Some(c) => crate::kalshi::listing::push_query(&mut out, "cursor", c),
        None => {},
    }
    proof {
        let tk = match ticker {
            Some(t) => Some(t@),
            None => None,
        };
        let cs = match cursor {
            Some(c) => Some(c@),
            None => None,
        };
        assert(mid =~= base + crate::kalshi::listing::opt_part("ticker"@, tk));
        assert(out@ =~= mid + crate::kalshi::listing::opt_part("cursor"@, cs));
    }
    out
}

/// The ids of the resting orders on a page.
pub fn resting_order_ids(orders: &Vec<Json>) -> (r: Vec<String>)
    ensures
        crate::json::views(r@) == keyed_strs(orders@, "order_id"@),
{
    collect_keyed_strs(orders, "order_id")
}

/// Whether `body` is `{"orders": [{"order_id": id}, ..]}` for `ids`.
pub open spec fn is_cancel_body(body: Json, ids: Seq<Seq<char>>) -> bool {
    &&& body matches Json::Object(m) && m@.len() == 1 && m@[0].0@ == "orders"@
    &&& body.field("orders"@) matches Some(Json::Array(es)) && es@.len() == ids.len() && (
    forall|i: int|
        0 <= i < ids.len() ==> #[trigger] members_of(es@[i]) == Some(
            seq![("order_id"@, Scalar::Text(ids[i]))],
        ))
}

/// The members of an object.
pub open spec fn members_of(j: Json) -> Option<Seq<(Seq<char>, Scalar)>> {
    match j {
        Json::Object(m) => Some(members_view(m@)),
        _ => None,
    }
}

/// The body of a batched cancellation of `ids`.
pub fn batch_cancel_body(ids: &Vec<String>) -> (r: Json)
    ensures
        is_cancel_body(r, crate::json::views(ids@)),
{
    let mut es: Vec<Json> = Vec::new();
    let mut i: usize = 0;
    while i < ids.len()
        invariant
            i <= ids.len(),
            es@.len() == i,
            forall|k: int|
                0 <= k < i ==> #[trigger] members_of(es@[k]) == Some(
                    seq![("order_id"@, Scalar::Text(ids@[k]@))],
                ),
        decreases ids.len() - i,
    {
        let mut m: Vec<(String, Json)> = Vec::new();
        push_member(&mut m, "order_id", Json::Str(ids[i].clone()));
        assert(members_view(m@) =~= seq![("order_id"@, Scalar::Text(ids@[i as int]@))]);
        es.push(Json::Object(m));
        i = i + 1;
    }
    let mut m: Vec<(String, Json)> = Vec::new();
    m.push((owned("orders"), Json::Array(es)));
    proof {
        reveal_strlit("orders");
        assert(crate::json::member_index(m@, "orders"@, 0) == 0);
    }
    Json::Object(m)
}

/// An entry of a batched cancellation reply can be read: an object with a
/// string `order_id`, and `reduced_by` a string when given.
pub open spec fn cancel_entry_ok(e: Json) -> bool {
    e is Object && str_field(e, "order_id"@) is Some && opt_text_ok(e.field("reduced_by"@))
}

/// The entries that report a cancellation (no error).
pub open spec fn cancelled_entries(es: Seq<Json>) -> Seq<Json>
    decreases es.len(),
{
    if es.len() == 0 {
        Seq::empty()
    } else {
        let rest = cancelled_entries(es.drop_last());
        if present(es.last().field("error"@)) {
            rest
        } else {
            rest.push(es.last())
        }
    }
}

/// Whether `o` is the cancelled order a cancellation entry `e` reports for
/// market `ticker`, at time `now`.
pub open spec fn is_cancelled_order(o: Order, e: Json, ticker: Seq<char>, now: i64) -> bool {
    &&& str_field(e, "order_id"@) == Some(o.id@)
    &&& o.market_ticker@ == ticker
    &&& o.outcome@ == Seq::<char>::empty()
    &&& o.side == OrderSide::Buy
    &&& o.price is None
    &&& opt_view(o.size) == float_field(e, "reduced_by"@)
    &&& o.filled is None
    &&& o.fee is None
    &&& o.status == OrderStatus::Cancelled
    &&& o.created_at == now
    &&& o.updated_at == Some(now)
}

/// The orders a batched cancellation reply reports as cancelled, in order;
/// `None` when the reply cannot be read.
pub fn cancelled_orders(reply: &Json, market_ticker: Option<&str>, now_ms: i64) -> (r: Option<Vec<Order>>)
    ensures
        r is Some <==> cancel_reply_ok(*reply),
        r matches Some(os) ==> (reply_entries(*reply) matches Some(es) && ({
            let kept = cancelled_entries(es);
            &&& os@.len() == kept.len()
            &&& forall|i: int|
                0 <= i < kept.len() ==> is_cancelled_order(
                    #[trigger] os@[i],
                    kept[i],
                    match market_ticker {
                        Some(t) => t@,
                        None => Seq::empty(),
                    },
                    now_ms,
                )
        })),
{
    proof {
        reveal_strlit("");
    }
    let ticker: &str = match market_ticker {
        Some(t) => t,
        None => "",
    };
    let es: &Vec<Json> = match reply {
        Json::Object(_) => match reply.get("orders") {
            None => {
                let r: Vec<Order> = Vec::new();
                assert(cancelled_entries(Seq::<Json>::empty()) =~= Seq::<Json>::empty());
                return Some(r);
            },
            Some(Json::Array(a)) => a,
            Some(_) => return None,
        },
        _ => return None,
    };
    let mut out: Vec<Order> = Vec::new();
    let mut i: usize = 0;
    while i < es.len()
        invariant
            i <= es.len(),
            reply_entries(*reply) == Some(es@),
            ticker@ == (match market_ticker {
                Some(t) => t@,
                None => Seq::<char>::empty(),
            }),
            forall|k: int| 0 <= k < i ==> cancel_entry_ok(#[trigger] es@[k]),
            out@.len() == cancelled_entries(es@.take(i as int)).len(),
            forall|k: int|
                0 <= k < out@.len() ==> is_cancelled_order(
                    #[trigger] out@[k],
                    cancelled_entries(es@.take(i as int))[k],
                    ticker@,
                    now_ms,
                ),
        decreases es.len() - i,
    {
        assert(es@.take(i + 1).drop_last() =~= es@.take(i as int));
        assert(es@.take(i + 1).last() == es@[i as int]);
        let e = &es[i];
        let id = match e {
            Json::Object(_) => match e.get_str("order_id") {
                Some(t) => t,
                None => {
                    assert(!cancel_entry_ok(es@[i as int]));
                    proof {
                        lemma_bad_entry(*reply, es@, i as int);
                    }
                    return None;
                },
            },
            _ => {
                assert(!cancel_entry_ok(es@[i as int]));
                    proof {
                        lemma_bad_entry(*reply, es@, i as int);
                    }
                return None;
            },
        };
        let reduced_ok = match e.get("reduced_by") {
            None => true,
            Some(Json::Null) => true,
            Some(Json::Str(_)) => true,
            Some(_) => false,
        };
        if !reduced_ok {
            assert(!cancel_entry_ok(es@[i as int]));
                    proof {
                        lemma_bad_entry(*reply, es@, i as int);
                    }
            return None;
        }
        let rejected = match e.get("error") {
            None => false,
            Some(Json::Null) => false,
            Some(_) => true,
        };
        if !rejected {
            let o = Order {
                id: owned(id),
                market_ticker: owned(ticker),
                outcome: owned(""),
                side: OrderSide::Buy,
                price: None,
                size: float_text_at(e, "reduced_by"),
                filled: None,
                fee: None,
                status: OrderStatus::Cancelled,
                created_at: now_ms,
                updated_at: Some(now_ms),
            };
            proof {
                reveal_strlit("");
            }
            assert(o.outcome@ == Seq::<char>::empty());
            assert(str_field(es@[i as int], "order_id"@) == Some(o.id@));
            assert(is_cancelled_order(o, es@[i as int], ticker@, now_ms));
            let ghost before = out@;
            let ghost prev = cancelled_entries(es@.take(i as int));
            out.push(o);
            proof {
                assert(cancelled_entries(es@.take(i + 1)) == prev.push(es@[i as int]));
                assert forall|k: int| 0 <= k < out@.len() implies is_cancelled_order(
                    #[trigger] out@[k],
                    prev.push(es@[i as int])[k],
                    ticker@,
                    now_ms,
                ) by {
                    if k < before.len() {
                        assert(out@[k] == before[k]);
                    }
                }
            }
        }
        i = i + 1;
    }
    assert(es@.take(es.len() as int) =~= es@);
    Some(out)
}

/// The order a single cancellation reply `{order_id, reduced_by}` reports,
/// at time `now_ms`; `None` when the reply lacks either string.
pub fn cancelled_order(reply: &Json, now_ms: i64) -> (r: Option<Order>)
    ensures
        r is Some <==> (str_field(*reply, "order_id"@) is Some && str_field(*reply, "reduced_by"@) is Some
            && opt_text_ok(reply.field("client_order_id"@))),
        r matches Some(o) ==> is_cancelled_order(o, *reply, Seq::empty(), now_ms),
{
    proof {
        reveal_strlit("");
    }
    let id = match reply.get_str("order_id") {
        Some(t) => t,
        None => return None,
    };
    if reply.get_str("reduced_by").is_none() {
        return None;
    }
    match reply.get("client_order_id") {
        None => {},
        Some(Json::Null) => {},
        Some(Json::Str(_)) => {},
        Some(_) => return None,
    }
    let o = Order {
            id: owned(id),
            market_ticker: owned(""),
            outcome: owned(""),
            side: OrderSide::Buy,
            price: None,
            size: float_text_at(reply, "reduced_by"),
            filled: None,
            fee: None,
            status: OrderStatus::Cancelled,
            created_at: now_ms,
            updated_at: Some(now_ms),
        };
    assert(o.outcome@ == Seq::<char>::empty());
    assert(o.market_ticker@ == Seq::<char>::empty());
    assert(str_field(*reply, "order_id"@) == Some(o.id@));
    Some(o)
}

/// Placing on Kalshi's single YES book: a NO intent is mirrored and a YES
/// intent is not; buying YES and selling NO bid, the other two ask, so the
/// two sides of one outcome land on different book sides, and the two
/// outcomes of one side do too.
pub proof fn lemma_v2_side_mirrors(outcome: OrderOutcome, side: OrderSide)
    ensures
        v2_side_of(outcome, side).1 <==> outcome == OrderOutcome::No,
        v2_side_of(outcome, side).0 == "bid"@ || v2_side_of(outcome, side).0 == "ask"@,
        v2_side_of(OrderOutcome::Yes, OrderSide::Buy).0 == "bid"@,
        v2_side_of(outcome, OrderSide::Buy).0 != v2_side_of(outcome, OrderSide::Sell).0,
        v2_side_of(OrderOutcome::Yes, side).0 != v2_side_of(OrderOutcome::No, side).0,
{
    reveal_strlit("bid");
    reveal_strlit("ask");
    assert("bid"@[0] != "ask"@[0]);
}

/// Every order type has its own time-in-force word.
pub proof fn lemma_tif_distinct(a: OrderType, b: OrderType)
    ensures
        a != b ==> tif_text(a) != tif_text(b),
        tif_text(OrderType::Gtc) == "good_till_canceled"@,
{
    reveal_strlit("good_till_canceled");
    reveal_strlit("fill_or_kill");
    reveal_strlit("immediate_or_cancel");
    assert("good_till_canceled"@.len() != "fill_or_kill"@.len());
    assert("good_till_canceled"@.len() != "immediate_or_cancel"@.len());
    assert("fill_or_kill"@.len() != "immediate_or_cancel"@.len());
}

} // verus!
