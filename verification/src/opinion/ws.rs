//! The Opinion WebSocket protocol: the socket URL, the channel commands,
//! and what each pushed message means. Sockets, clocks and dispatch run
//! outside; prices stay number text.

use vstd::prelude::*;
use vstd::string::*;

use crate::events::{ActivityFill, ActivityTrade, BookSide, LiquidityRole, WebSocketError};
use crate::json::{json_text, members_view, opt_view, spec_json_text, str_field, Json, Scalar};
use crate::opinion::config::OpinionConfig;
use crate::subscriptions::MarketSet;
use crate::opinion::fields::{amount_text, amount_text_of, id_text, id_text_of, pick2, then_amount, then_str};
use crate::text::{concat, lowercase, owned, parse_i64, parse_i64_spec, spec_lowercase, str_eq};
use crate::time::{millis_in_range, spec_millis_in_range};

verus! {

/// `s` without the `c` characters at its end (`trim_end_matches(c)`).
pub open spec fn trim_end_char(s: Seq<char>, c: char) -> Seq<char>
    decreases s.len(),
{
    if s.len() > 0 && s.last() == c {
        trim_end_char(s.drop_last(), c)
    } else {
        s
    }
}

/// `s` without the `c` characters at its end.
pub fn trim_end(s: &str, c: char) -> (r: String)
    ensures
        r@ == trim_end_char(s@, c),
{
    let v = crate::text::chars_of(s);
    let mut n = v.len();
    assert(s@.take(n as int) =~= s@);
    while n > 0 && v[n - 1] == c
        invariant
            n <= v.len(),
            v@ == s@,
            trim_end_char(s@, c) == trim_end_char(s@.take(n as int), c),
        decreases n,
    {
        assert(s@.take(n as int).drop_last() =~= s@.take(n - 1));
        n = n - 1;
    }
    assert(s@.take(n as int).len() == 0 || s@.take(n as int).last() != c);
    crate::text::string_of_chars(&v, 0, n)
}

/// A socket needs an API key.
pub fn check_ws_config(config: &OpinionConfig) -> (r: Result<(), WebSocketError>)
    ensures
        r is Ok <==> config.api_key is Some,
        r matches Err(WebSocketError::Connection(m)) ==> m@ == "api_key required for Opinion WebSocket"@,
        r matches Err(e) ==> e is Connection,
{
    if config.api_key.is_none() {
        return Err(WebSocketError::Connection(owned("api_key required for Opinion WebSocket")));
    }
    Ok(())
}

/// The socket URL: the base without trailing slashes, then `/?apikey=`.
pub fn ws_url(config: &OpinionConfig) -> (r: Result<String, WebSocketError>)
    ensures
        match config.api_key {
            Some(k) => r matches Ok(u) && u@ == trim_end_char(config.ws_url@, '/') + "/?apikey="@
                + k@,
            None => r matches Err(WebSocketError::Connection(m)) && m@ == "api_key required"@,
        },
{
    match &config.api_key {
        Some(k) => {
            let mut u = trim_end(config.ws_url.as_str(), '/');
            u.append("/?apikey=");
            u.append(k.as_str());
            Ok(u)
        },
        None => Err(WebSocketError::Connection(owned("api_key required"))),
    }
}

/// The text of the keep-alive message.
pub const HEARTBEAT_MESSAGE: &'static str = "{\"action\":\"HEARTBEAT\"}";

/// The keep-alive interval, in seconds.
pub const HEARTBEAT_INTERVAL_SECS: u64 = 30;

/// The channels a market subscription covers, in the order they are sent.
pub open spec fn opinion_channels() -> Seq<Seq<char>> {
    seq![
        "market.depth.diff"@,
        "market.last.trade"@,
        "market.last.price"@,
        "trade.order.update"@,
        "trade.record.new"@,
    ]
}

/// The command for one channel: `{"action", "channel", "marketId"}`.
pub open spec fn channel_command(action: Seq<char>, channel: Seq<char>, market: i64) -> Seq<(Seq<char>, Scalar)> {
    seq![
        ("action"@, Scalar::Text(action)),
        ("channel"@, Scalar::Text(channel)),
        ("marketId"@, Scalar::Int(market as int)),
    ]
}

/// Whether `t` is the JSON text of a command object.
pub open spec fn is_command_text(t: Seq<char>, action: Seq<char>, channel: Seq<char>, market: i64) -> bool {
    exists|j: Json| #![trigger spec_json_text(j)]
        (j matches Json::Object(m) && members_view(m@) == channel_command(action, channel, market))
            && t == spec_json_text(j)
}

/// Whether `msgs` are the commands for `action` on every channel of
/// market `market`, as JSON text.
pub open spec fn is_channel_commands(msgs: Seq<Seq<char>>, action: Seq<char>, market: i64) -> bool {
    &&& msgs.len() == opinion_channels().len()
    &&& forall|i: int|
        0 <= i < msgs.len() ==> is_command_text(#[trigger] msgs[i], action, opinion_channels()[i], market)
}

/// One channel command as JSON text.
fn channel_message(action: &str, channel: &str, market: i64) -> (r: String)
    ensures
        is_command_text(r@, action@, channel@, market),
{
    let mut m: Vec<(String, Json)> = Vec::new();
    m.push((owned("action"), Json::Str(owned(action))));
    m.push((owned("channel"), Json::Str(owned(channel))));
    m.push((owned("marketId"), crate::json::int_json(market)));
    assert(members_view(m@) =~= channel_command(action@, channel@, market));
    let j = Json::Object(m);
    json_text(&j)
}

/// The subscribe (`SUBSCRIBE`) or unsubscribe (`UNSUBSCRIBE`) commands for
/// a market; its id must be an integer.
pub fn channel_messages(market_id: &str, subscribe: bool) -> (r: Result<Vec<String>, WebSocketError>)
    ensures
        match parse_i64_spec(market_id@) {
            Some(n) => r matches Ok(v) && is_channel_commands(
                crate::json::views(v@),
                if subscribe {
                    "SUBSCRIBE"@
                } else {
                    "UNSUBSCRIBE"@
                },
                n,
            ),
            None => r matches Err(WebSocketError::Subscription(m)) && m@ == "invalid market_id: "@
                + market_id@,
        },
{
    let n = match parse_i64(market_id) {
        Some(n) => n,
        None => return Err(WebSocketError::Subscription(concat("invalid market_id: ", market_id))),
    };
    let action = if subscribe {
        "SUBSCRIBE"
    } else {
        "UNSUBSCRIBE"
    };
    let mut out: Vec<String> = Vec::new();
    out.push(channel_message(action, "market.depth.diff", n));
    out.push(channel_message(action, "market.last.trade", n));
    out.push(channel_message(action, "market.last.price", n));
    out.push(channel_message(action, "trade.order.update", n));
    out.push(channel_message(action, "trade.record.new", n));
    proof {
        let vs = crate::json::views(out@);
        assert forall|i: int| 0 <= i < vs.len() implies is_command_text(
            #[trigger] vs[i],
            action@,
            opinion_channels()[i],
            n,
        ) by {
            assert(vs[i] == out@[i]@);
        }
    }
    Ok(out)
}

/// A change to one price level of a book. The price is number text; when
/// `complement` is set the level sits at one minus that price.
#[derive(Debug, Clone)]
pub struct DepthChange {
    pub market_id: String,
    pub side: BookSide,
    pub price: String,
    pub complement: bool,
    pub size: Option<String>,
    pub exchange_ts_ms: Option<u64>,
}

/// What a pushed message means.
#[derive(Debug, Clone)]
pub enum OpinionUpdate {
    Depth(DepthChange),
    Trade(ActivityTrade),
    Fill(ActivityFill),
}

/// Whether `msgs` subscribe every channel of the market with id `id`,
/// which reads as an integer.
pub open spec fn is_subscribe_commands(msgs: Seq<Seq<char>>, id: Seq<char>) -> bool {
    match parse_i64_spec(id) {
        Some(n) => is_channel_commands(msgs, "SUBSCRIBE"@, n),
        None => false,
    }
}

/// The subscribe commands a connection that has just opened sends: for
/// each subscribed market in order, its five channel commands. The walk
/// stops at the first market whose id is not an integer, with the error
/// that market gives; the commands of the markets before it still go out.
pub fn subscribe_all(markets: &MarketSet) -> (r: (Vec<Vec<String>>, Option<WebSocketError>))
    ensures
        r.0@.len() <= markets.ids_view().len(),
        forall|j: int|
            0 <= j < r.0@.len() ==> is_subscribe_commands(crate::json::views((#[trigger] r.0@[j])@), markets.ids_view()[j]),
        r.1 is None <==> r.0@.len() == markets.ids_view().len(),
        r.0@.len() < markets.ids_view().len() ==> parse_i64_spec(markets.ids_view()[r.0@.len() as int]) is None,
        r.0@.len() < markets.ids_view().len() ==> (r.1 matches Some(WebSocketError::Subscription(m)) && m@
            == "invalid market_id: "@ + markets.ids_view()[r.0@.len() as int]),
{
    let ids = markets.to_vec();
    let mut out: Vec<Vec<String>> = Vec::new();
    let mut i: usize = 0;
    while i < ids.len()
        invariant
            i <= ids@.len(),
            crate::json::views(ids@) == markets.ids_view(),
            out@.len() == i,
            forall|j: int|
                0 <= j < i ==> is_subscribe_commands(crate::json::views((#[trigger] out@[j])@), markets.ids_view()[j]),
        decreases ids.len() - i,
    {
        assert(ids@[i as int]@ == markets.ids_view()[i as int]);
        match channel_messages(ids[i].as_str(), true) {
            Ok(v) => {
                out.push(v);
            },
            Err(e) => {
                return (out, Some(e));
            },
        }
        i = i + 1;
    }
    (out, None)
}

/// The market a message is about: an integer or a string `marketId`.
pub open spec fn market_of(v: Json) -> Option<Seq<char>> {
    match v.field("marketId"@) {
        Some(x) => id_text_of(x),
        None => None,
    }
}

/// The side and mirroring of a depth change: on the YES book (1) bids are
/// bids; on the NO book (2) a bid is an ask at the complement and an ask a
/// bid at the complement; other books are not read.
pub open spec fn depth_side(outcome_side: i64, side: Seq<char>) -> Option<(BookSide, bool)> {
    if outcome_side == 1 {
        Some((if side == "bids"@ { BookSide::Bid } else { BookSide::Ask }, false))
    } else if outcome_side == 2 {
        Some((if side == "bids"@ { BookSide::Ask } else { BookSide::Bid }, true))
    } else {
        None
    }
}

/// An integer member, or a default.
pub open spec fn int_or(v: Option<Json>, d: i64) -> i64 {
    match v {
        Some(x) => match x.i64_of() {
            Some(n) => n,
            None => d,
        },
        None => d,
    }
}

/// The exchange time of a depth change: integer milliseconds in chrono's
/// range, read back as unsigned.
pub open spec fn depth_ts(v: Json) -> Option<u64> {
    match pick2(v, "timestamp"@, "ts"@) {
        Some(x) => match x.i64_of() {
            Some(ms) => if spec_millis_in_range(ms) {
                Some(#[verifier::truncate] (ms as u64))
            } else {
                None
            },
            None => None,
        },
        None => None,
    }
}

/// Whether `d` is the depth change a `market.depth.diff` message `v` gives.
pub open spec fn is_depth_of(d: DepthChange, v: Json) -> bool {
    &&& market_of(v) == Some(d.market_id@)
    &&& then_amount(v.field("price"@)) == Some(d.price@)
    &&& depth_side(
        int_or(v.field("outcomeSide"@), 0),
        crate::kalshi::catalog::text_or_empty(str_field(v, "side"@)),
    ) == Some((d.side, d.complement))
    &&& opt_view(d.size) == then_amount(v.field("size"@))
    &&& d.exchange_ts_ms == depth_ts(v)
}

/// A depth message is read when it names a market, a price, and a book.
pub open spec fn depth_readable(v: Json) -> bool {
    &&& market_of(v) is Some
    &&& then_amount(v.field("price"@)) is Some
    &&& depth_side(
        int_or(v.field("outcomeSide"@), 0),
        crate::kalshi::catalog::text_or_empty(str_field(v, "side"@)),
    ) is Some
}

/// Reads the market of a message.
fn market_id_of(v: &Json) -> (r: Option<String>)
    ensures
        opt_view(r) == market_of(*v),
{
    match v.get("marketId") {
        Some(x) => id_text(x),
        None => None,
    }
}

/// Reads a price member.
fn price_of(v: &Json) -> (r: Option<String>)
    ensures
        opt_view(r) == then_amount(v.field("price"@)),
{
    match v.get("price") {
        Some(x) => amount_text(x),
        None => None,
    }
}

/// Reads an amount member.
fn amount_at(v: &Json, key: &str) -> (r: Option<String>)
    ensures
        opt_view(r) == then_amount(v.field(key@)),
{
    match v.get(key) {
        Some(x) => amount_text(x),
        None => None,
    }
}

/// Reads an integer member, or a default.
fn int_at(v: &Json, key: &str, d: i64) -> (r: i64)
    ensures
        r == int_or(v.field(key@), d),
{
    match v.get(key) {
        Some(x) => match x.as_i64() {
            Some(n) => n,
            None => d,
        },
        None => d,
    }
}

/// Reads a `market.depth.diff` message.
pub fn depth_change(v: &Json) -> (r: Option<DepthChange>)
    ensures
        r is Some <==> depth_readable(*v),
        r matches Some(d) ==> is_depth_of(d, *v),
{
    proof {
        reveal_strlit("");
    }
    let market_id = match market_id_of(v) {
        Some(m) => m,
        None => return None,
    };
    let outcome_side = int_at(v, "outcomeSide", 0);
    let side = match v.get_str("side") {
        Some(s) => s,
        None => "",
    };
    let price = match price_of(v) {
        Some(p) => p,
        None => return None,
    };
    let bids = str_eq(side, "bids");
    let (book_side, complement) = if outcome_side == 1 {
        (if bids { BookSide::Bid } else { BookSide::Ask }, false)
    } else if outcome_side == 2 {
        (if bids { BookSide::Ask } else { BookSide::Bid }, true)
    } else {
        return None;
    };
    let exchange_ts_ms = match v.get_either("timestamp", "ts") {
        Some(x) => match x.as_i64() {
            Some(ms) => if millis_in_range(ms) {
                Some(#[verifier::truncate] (ms as u64))
            } else {
                None
            },
            None => None,
        },
        None => None,
    };
    let d = DepthChange {
        market_id,
        side: book_side,
        price,
        complement,
        size: amount_at(v, "size"),
        exchange_ts_ms,
    };
    assert(side@ == crate::kalshi::catalog::text_or_empty(str_field(*v, "side"@)));
    assert(d.exchange_ts_ms == depth_ts(*v));
    assert(depth_side(
        int_or(v.field("outcomeSide"@), 0),
        crate::kalshi::catalog::text_or_empty(str_field(*v, "side"@)),
    ) == Some((d.side, d.complement)));
    Some(d)
}

/// An exchange time that is a non-negative integer, kept as unsigned.
pub open spec fn plain_ts(v: Json) -> Option<u64> {
    match pick2(v, "timestamp"@, "ts"@) {
        Some(x) => match x.i64_of() {
            Some(t) => if t >= 0 {
                Some(t as u64)
            } else {
                None
            },
            None => None,
        },
        None => None,
    }
}

/// Whether `t` is the trade a `market.last.trade` (or `.price`) message
/// `v` gives.
pub open spec fn is_last_trade_of(t: ActivityTrade, v: Json) -> bool {
    &&& market_of(v) == Some(t.market_id@)
    &&& t.asset_id@ == crate::kalshi::catalog::text_or_empty(then_str(pick2(v, "tokenId"@, "token_id"@)))
    &&& t.trade_id is None
    &&& then_amount(v.field("price"@)) == Some(t.price@)
    &&& opt_view(t.size) == then_amount(pick2(v, "shares"@, "size"@))
    &&& opt_view(t.side) == str_field(v, "side"@)
    &&& t.aggressor_side is None
    &&& t.outcome is None
    &&& t.fee_rate_bps is None
    &&& t.exchange_ts_ms == plain_ts(v)
    &&& t.source_channel@ == "market.last.trade"@
}

/// Reads a `market.last.trade` (or `market.last.price`) message.
pub fn last_trade(v: &Json) -> (r: Option<ActivityTrade>)
    ensures
        r is Some <==> (market_of(*v) is Some && then_amount(v.field("price"@)) is Some),
        r matches Some(t) ==> is_last_trade_of(t, *v),
{
    let market_id = match market_id_of(v) {
        Some(m) => m,
        None => return None,
    };
    let price = match price_of(v) {
        Some(p) => p,
        None => return None,
    };
    let size = match v.get_either("shares", "size") {
        Some(x) => amount_text(x),
        None => None,
    };
    let asset_id = match v.get_either("tokenId", "token_id") {
        Some(x) => match x.as_str() {
            Some(s) => owned(s),
            None => String::new(),
        },
        None => String::new(),
    };
    let exchange_ts_ms = match v.get_either("timestamp", "ts") {
        Some(x) => match x.as_i64() {
            Some(t) => if t >= 0 {
                Some(t as u64)
            } else {
                None
            },
            None => None,
        },
        None => None,
    };
    Some(
        ActivityTrade {
            market_id,
            asset_id,
            trade_id: None,
            price,
            size,
            side: v.get_string("side"),
            aggressor_side: None,
            outcome: None,
            fee_rate_bps: None,
            exchange_ts_ms,
            source_channel: owned("market.last.trade"),
        },
    )
}

/// An Opinion `createdAt` in milliseconds: values above 10^12 already are,
/// smaller non-negative ones are seconds; negatives and overflows are
/// dropped.
pub open spec fn created_ms(v: Json) -> Option<u64> {
    match v.field("createdAt"@) {
        Some(x) => match x.i64_of() {
            Some(ts) => if ts > 1_000_000_000_000 {
                Some(ts as u64)
            } else if ts >= 0 {
                Some((ts * 1000) as u64)
            } else {
                None
            },
            None => None,
        },
        None => None,
    }
}

/// Reads `createdAt` as milliseconds.
fn created_at_ms(v: &Json) -> (r: Option<u64>)
    ensures
        r == created_ms(*v),
{
    match v.get("createdAt") {
        Some(x) => match x.as_i64() {
            Some(ts) => if ts > 1_000_000_000_000 {
                Some(ts as u64)
            } else if ts >= 0 {
                Some((ts as u64) * 1000)
            } else {
                None
            },
            None => None,
        },
        None => None,
    }
}

/// A code 1 or 2 as one of two words.
pub open spec fn code_word(v: Option<Json>, one: Seq<char>, two: Seq<char>) -> Option<Seq<char>> {
    match v {
        Some(x) => match x.i64_of() {
            Some(n) => if n == 1 {
                Some(one)
            } else if n == 2 {
                Some(two)
            } else {
                None
            },
            None => None,
        },
        None => None,
    }
}

/// Reads a code 1 or 2 as one of two words.
fn code_word_at(v: &Json, key: &str, one: &str, two: &str) -> (r: Option<String>)
    ensures
        opt_view(r) == code_word(v.field(key@), one@, two@),
{
    match v.get(key) {
        Some(x) => match x.as_i64() {
            Some(n) => if n == 1 {
                Some(owned(one))
            } else if n == 2 {
                Some(owned(two))
            } else {
                None
            },
            None => None,
        },
        None => None,
    }
}

/// Whether `f` is the fill a `trade.order.update` message `v` gives.
pub open spec fn is_order_fill_of(f: ActivityFill, v: Json) -> bool {
    &&& market_of(v) == Some(f.market_id@)
    &&& f.asset_id@ == Seq::<char>::empty()
    &&& f.fill_id is None
    &&& opt_view(f.order_id) == str_field(v, "orderId"@)
    &&& then_amount(v.field("price"@)) == Some(f.price@)
    &&& opt_view(f.size) == then_amount(pick2(v, "filledShares"@, "shares"@))
    &&& opt_view(f.side) == code_word(v.field("side"@), "buy"@, "sell"@)
    &&& opt_view(f.outcome) == code_word(v.field("outcomeSide"@), "Yes"@, "No"@)
    &&& f.tx_hash is None
    &&& f.fee is None
    &&& f.exchange_ts_ms == created_ms(v)
    &&& f.source_channel@ == "trade.order.update"@
    &&& f.liquidity_role is None
}

/// An order update is a fill when its type is `orderFill` and it names a
/// market and a price.
pub open spec fn order_fill_readable(v: Json) -> bool {
    &&& str_field(v, "orderUpdateType"@) == Some("orderFill"@)
    &&& market_of(v) is Some
    &&& then_amount(v.field("price"@)) is Some
}

/// Reads a `trade.order.update` message; only fills are read.
pub fn order_update_fill(v: &Json) -> (r: Option<ActivityFill>)
    ensures
        r is Some <==> order_fill_readable(*v),
        r matches Some(f) ==> is_order_fill_of(f, *v),
{
    proof {
        reveal_strlit("");
    }
    match v.get_str("orderUpdateType") {
        Some(t) => if !str_eq(t, "orderFill") {
            return None;
        },
        None => return None,
    }
    let market_id = match market_id_of(v) {
        Some(m) => m,
        None => return None,
    };
    let price = match price_of(v) {
        Some(p) => p,
        None => return None,
    };
    let size = match v.get_either("filledShares", "shares") {
        Some(x) => amount_text(x),
        None => None,
    };
    let f = ActivityFill {
        market_id,
        asset_id: owned(""),
        fill_id: None,
        order_id: v.get_string("orderId"),
        price,
        size,
        side: code_word_at(v, "side", "buy", "sell"),
        outcome: code_word_at(v, "outcomeSide", "Yes", "No"),
        tx_hash: None,
        fee: None,
        exchange_ts_ms: created_at_ms(v),
        source_channel: owned("trade.order.update"),
        liquidity_role: None,
    };
    assert(f.asset_id@ == Seq::<char>::empty());
    assert(opt_view(f.size) == then_amount(pick2(*v, "filledShares"@, "shares"@)));
    assert(f.exchange_ts_ms == created_ms(*v));
    Some(f)
}

/// Whether `f` is the fill a `trade.record.new` message `v` gives. Buys
/// and sells took liquidity; splits and merges have no role.
pub open spec fn is_trade_record_of(f: ActivityFill, v: Json) -> bool {
    let side = match str_field(v, "side"@) {
        Some(s) => Some(spec_lowercase(s)),
        None => None,
    };
    &&& market_of(v) == Some(f.market_id@)
    &&& f.asset_id@ == Seq::<char>::empty()
    &&& opt_view(f.fill_id) == str_field(v, "tradeNo"@)
    &&& opt_view(f.order_id) == str_field(v, "orderId"@)
    &&& then_amount(v.field("price"@)) == Some(f.price@)
    &&& opt_view(f.size) == then_amount(v.field("shares"@))
    &&& opt_view(f.side) == side
    &&& opt_view(f.outcome) == code_word(v.field("outcomeSide"@), "Yes"@, "No"@)
    &&& opt_view(f.tx_hash) == str_field(v, "txHash"@)
    &&& opt_view(f.fee) == then_amount(v.field("fee"@))
    &&& f.exchange_ts_ms == created_ms(v)
    &&& f.source_channel@ == "trade.record.new"@
    &&& f.liquidity_role == (if side == Some("buy"@) || side == Some("sell"@) {
        Some(LiquidityRole::Taker)
    } else {
        None
    })
}

/// Reads a `trade.record.new` message.
pub fn trade_record(v: &Json) -> (r: Option<ActivityFill>)
    ensures
        r is Some <==> (market_of(*v) is Some && then_amount(v.field("price"@)) is Some),
        r matches Some(f) ==> is_trade_record_of(f, *v),
{
    proof {
        reveal_strlit("");
    }
    let market_id = match market_id_of(v) {
        Some(m) => m,
        None => return None,
    };
    let price = match price_of(v) {
        Some(p) => p,
        None => return None,
    };
    let side = match v.get_str("side") {
        Some(s) => Some(lowercase(s)),
        None => None,
    };
    let liquidity_role = match &side {
        Some(s) => if str_eq(s.as_str(), "buy") || str_eq(s.as_str(), "sell") {
            Some(LiquidityRole::Taker)
        } else {
            None
        },
        None => None,
    };
    let f = ActivityFill {
        market_id,
        asset_id: owned(""),
        fill_id: v.get_string("tradeNo"),
        order_id: v.get_string("orderId"),
        price,
        size: amount_at(v, "shares"),
        side,
        outcome: code_word_at(v, "outcomeSide", "Yes", "No"),
        tx_hash: v.get_string("txHash"),
        fee: amount_at(v, "fee"),
        exchange_ts_ms: created_at_ms(v),
        source_channel: owned("trade.record.new"),
        liquidity_role,
    };
    assert(f.asset_id@ == Seq::<char>::empty());
    assert(f.exchange_ts_ms == created_ms(*v));
    Some(f)
}

/// What a message of type `msg_type` gives, by its handler.
pub open spec fn update_of(v: Json, u: Option<OpinionUpdate>) -> bool {
    let t = crate::kalshi::catalog::text_or_empty(str_field(v, "msgType"@));
    if t == "market.depth.diff"@ {
        match u {
            Some(OpinionUpdate::Depth(d)) => depth_readable(v) && is_depth_of(d, v),
            None => !depth_readable(v),
            _ => false,
        }
    } else if t == "market.last.trade"@ || t == "market.last.price"@ {
        match u {
            Some(OpinionUpdate::Trade(x)) => is_last_trade_of(x, v),
            None => !(market_of(v) is Some && then_amount(v.field("price"@)) is Some),
            _ => false,
        }
    } else if t == "trade.order.update"@ {
        match u {
            Some(OpinionUpdate::Fill(f)) => is_order_fill_of(f, v),
            None => !order_fill_readable(v),
            _ => false,
        }
    } else if t == "trade.record.new"@ {
        match u {
            Some(OpinionUpdate::Fill(f)) => is_trade_record_of(f, v),
            None => !(market_of(v) is Some && then_amount(v.field("price"@)) is Some),
            _ => false,
        }
    } else {
        u is None
    }
}

/// Reads a pushed message by its `msgType`; other types give nothing.
pub fn handle_message(v: &Json) -> (r: Option<OpinionUpdate>)
    ensures
        update_of(*v, r),
{
    proof {
        reveal_strlit("");
    }
    let t = match v.get_str("msgType") {
        Some(t) => t,
        None => "",
    };
    let ghost tv = crate::kalshi::catalog::text_or_empty(str_field(*v, "msgType"@));
    assert(t@ == tv);
    if str_eq(t, "market.depth.diff") {
        let r = match depth_change(v) {
            Some(d) => Some(OpinionUpdate::Depth(d)),
            None => None,
        };
        assert(tv == "market.depth.diff"@);
        r
    } else if str_eq(t, "market.last.trade") || str_eq(t, "market.last.price") {
        match last_trade(v) {
            Some(x) => Some(OpinionUpdate::Trade(x)),
            None => None,
        }
    } else if str_eq(t, "trade.order.update") {
        match order_update_fill(v) {
            Some(f) => Some(OpinionUpdate::Fill(f)),
            None => None,
        }
    } else if str_eq(t, "trade.record.new") {
        match trade_record(v) {
            Some(f) => Some(OpinionUpdate::Fill(f)),
            None => None,
        }
    } else {
        None
    }
}

/// A depth change is read on the YES book (outcome side 1) as it is sent
/// and on the NO book (outcome side 2) mirrored: the same side word lands
/// on opposite book sides of the two books, only the NO book is
/// complemented, and on each book `bids` and any other word land on
/// different sides, `bids` being a bid on the YES book.
pub proof fn lemma_depth_sides(s: Seq<char>)
    ensures
        depth_side(1, s) is Some && depth_side(2, s) is Some,
        depth_side(1, s).unwrap().0 != depth_side(2, s).unwrap().0,
        !depth_side(1, s).unwrap().1 && depth_side(2, s).unwrap().1,
        depth_side(1, "bids"@).unwrap().0 == BookSide::Bid,
        s != "bids"@ ==> depth_side(1, s).unwrap().0 != depth_side(1, "bids"@).unwrap().0,
        s != "bids"@ ==> depth_side(2, s).unwrap().0 != depth_side(2, "bids"@).unwrap().0,
        forall|o: i64| o != 1 && o != 2 ==> depth_side(o, s) is None,
{
}

} // verus!
