//! A Kalshi market object, read into plain values. Prices and sizes stay
//! number text; which text stands for which field is decided here.

use vstd::prelude::*;
use vstd::string::*;

use crate::json::{array_field, first_some, number_field, number_text, number_text_at, opt_view, str_field, Json};
use crate::kalshi::catalog::{non_empty, text_or_empty};
use crate::models::{price_view, MarketStatus, MarketType, Price};
use crate::number::{float_field, float_text_at, is_float, is_float_text};
use crate::text::{concat, owned, str_eq};
use crate::time::{rfc3339_at, rfc3339_millis, secs_to_millis, spec_rfc3339_millis, spec_secs_in_range};

verus! {

/// A Kalshi market. Times are milliseconds since the epoch; `volume`,
/// `volume_24h`, `open_interest`, `tick_steps` and `min_order_size` are
/// number text. A Kalshi market has the two outcomes `Yes` and `No`;
/// `yes_price` is the price of `Yes` (the ask, else the last trade; none
/// when neither is quoted, which prices `Yes` at zero), and `No` is priced
/// one minus it.
#[derive(Debug, Clone)]
pub struct KalshiMarket {
    pub openpx_id: String,
    pub exchange: String,
    pub ticker: String,
    pub event_ticker: Option<String>,
    pub title: String,
    pub rules: Option<String>,
    pub status: MarketStatus,
    pub market_type: MarketType,
    pub yes_ask: Option<Price>,
    pub yes_bid: Option<Price>,
    pub last_price: Option<Price>,
    pub outcomes: Vec<String>,
    pub yes_price: Option<Price>,
    pub volume: Option<String>,
    pub open_interest: Option<String>,
    pub volume_24h: Option<String>,
    pub tick_steps: Vec<String>,
    pub min_order_size: String,
    pub close_time: Option<i64>,
    pub open_time: Option<i64>,
    pub created_at: Option<i64>,
    pub settlement_time: Option<i64>,
    pub result: Option<String>,
}

/// The dollar text of `dollars` when it reads as a number, else the number
/// in `cents`.
pub open spec fn price_field(j: Json, dollars: Seq<char>, cents: Seq<char>) -> Option<(bool, Seq<char>)> {
    match float_field(j, dollars) {
        Some(t) => Some((true, t)),
        None => match number_field(j, cents) {
            Some(t) => Some((false, t)),
            None => None,
        },
    }
}

/// The fixed-point text of `fp` when it reads as a number, else the number
/// in `legacy`.
pub open spec fn amount_field(j: Json, fp: Seq<char>, legacy: Seq<char>) -> Option<Seq<char>> {
    first_some(float_field(j, fp), number_field(j, legacy))
}

/// `yes | no`, from the two side titles (missing ones read as empty).
pub open spec fn composite_title(j: Json) -> Seq<char> {
    text_or_empty(str_field(j, "yes_sub_title"@)) + " | "@ + text_or_empty(
        str_field(j, "no_sub_title"@),
    )
}

/// The primary and secondary rules joined by ` | `, or whichever of them
/// is non-empty.
pub open spec fn rules_of(primary: Option<Seq<char>>, secondary: Option<Seq<char>>) -> Option<Seq<char>> {
    match (non_empty(primary), non_empty(secondary)) {
        (Some(p), Some(s)) => Some(p + " | "@ + s),
        (Some(p), None) => Some(p),
        (None, Some(s)) => Some(s),
        (None, None) => None,
    }
}

/// A lifecycle word of Kalshi as a status: `active` is active,
/// `determined` and `finalized` are resolved, any other word is closed; a
/// market without one is active.
pub open spec fn kalshi_status(s: Option<Seq<char>>) -> MarketStatus {
    match s {
        Some(w) => if w == "active"@ {
            MarketStatus::Active
        } else if w == "determined"@ || w == "finalized"@ {
            MarketStatus::Resolved
        } else {
            MarketStatus::Closed
        },
        None => MarketStatus::Active,
    }
}

/// `scalar` markets are scalar; all others binary.
pub open spec fn kalshi_market_type(s: Option<Seq<char>>) -> MarketType {
    match s {
        Some(w) => if w == "scalar"@ {
            MarketType::Scalar
        } else {
            MarketType::Binary
        },
        None => MarketType::Binary,
    }
}

/// The number texts of the `step` members of the tier objects in `a`,
/// skipping tiers without one.
pub open spec fn tick_steps_of(a: Seq<Json>) -> Seq<Seq<char>>
    decreases a.len(),
{
    if a.len() == 0 {
        Seq::empty()
    } else {
        let rest = tick_steps_of(a.drop_last());
        match (if a.last() is Object { float_field(a.last(), "step"@) } else { None }) {
            Some(t) => rest.push(t),
            None => rest,
        }
    }
}

/// The time of `settlement_ts`: RFC 3339 text, or whole seconds.
pub open spec fn settlement_of(v: Option<Json>) -> Option<i64> {
    match v {
        Some(x) => match x.str_of() {
            Some(s) => spec_rfc3339_millis(s),
            None => match x.i64_of() {
                Some(ts) => if spec_secs_in_range(ts) {
                    Some((ts * 1000) as i64)
                } else {
                    None
                },
                None => None,
            },
        },
        None => None,
    }
}

/// The smallest order: a hundredth of a contract where fractional trading
/// is on, one contract otherwise.
pub open spec fn min_order_text(fractional: bool) -> Seq<char> {
    if fractional {
        "0.01"@
    } else {
        "1"@
    }
}

/// Whether `m` is the market the Kalshi market object `j` describes.
pub open spec fn is_kalshi_market(m: KalshiMarket, j: Json) -> bool {
    &&& str_field(j, "ticker"@) == Some(m.ticker@)
    &&& m.openpx_id@ == "kalshi:"@ + m.ticker@
    &&& m.exchange@ == "kalshi"@
    &&& opt_view(m.event_ticker) == non_empty(str_field(j, "event_ticker"@))
    &&& m.title@ == composite_title(j)
    &&& opt_view(m.rules) == rules_of(str_field(j, "rules_primary"@), str_field(j, "rules_secondary"@))
    &&& m.status == kalshi_status(str_field(j, "status"@))
    &&& m.market_type == kalshi_market_type(str_field(j, "market_type"@))
    &&& price_view(m.yes_ask) == price_field(j, "yes_ask_dollars"@, "yes_ask"@)
    &&& price_view(m.yes_bid) == price_field(j, "yes_bid_dollars"@, "yes_bid"@)
    &&& price_view(m.last_price) == price_field(j, "last_price_dollars"@, "last_price"@)
    &&& crate::json::views(m.outcomes@) == seq!["Yes"@, "No"@]
    &&& price_view(m.yes_price) == first_some(
        price_field(j, "yes_ask_dollars"@, "yes_ask"@),
        price_field(j, "last_price_dollars"@, "last_price"@),
    )
    &&& opt_view(m.volume) == amount_field(j, "volume_fp"@, "volume"@)
    &&& opt_view(m.open_interest) == number_field(j, "open_interest"@)
    &&& opt_view(m.volume_24h) == amount_field(j, "volume_24h_fp"@, "volume_24h"@)
    &&& crate::json::views(m.tick_steps@) == (match array_field(j, "price_ranges"@) {
        Some(a) => tick_steps_of(a),
        None => Seq::empty(),
    })
    &&& m.min_order_size@ == min_order_text(
        crate::kalshi::catalog::bool_field(j, "fractional_trading_enabled"@) == Some(true),
    )
    &&& m.close_time == (match first_some(j.field("close_time"@), j.field("expiration_time"@)) {
        Some(v) => match v.str_of() {
            Some(s) => spec_rfc3339_millis(s),
            None => None,
        },
        None => None,
    })
    &&& m.open_time == crate::time::rfc3339_field(j, "open_time"@)
    &&& m.created_at == crate::time::rfc3339_field(j, "created_time"@)
    &&& m.settlement_time == settlement_of(j.field("settlement_ts"@))
    &&& opt_view(m.result) == non_empty(str_field(j, "result"@))
}

/// Reads a price: the dollar field when it holds number text, else the
/// legacy cents field when it holds a number.
pub fn price_at(j: &Json, dollars: &str, cents: &str) -> (r: Option<Price>)
    ensures
        price_view(r) == price_field(*j, dollars@, cents@),
{
    match float_text_at(j, dollars) {
        Some(t) => Some(Price::Decimal(t)),
        None => match number_text_at(j, cents) {
            Some(t) => Some(Price::Cents(t)),
            None => None,
        },
    }
}

/// Reads an amount: the fixed-point field when it holds number text, else
/// the legacy field when it holds a number.
pub fn amount_at(j: &Json, fp: &str, legacy: &str) -> (r: Option<String>)
    ensures
        opt_view(r) == amount_field(*j, fp@, legacy@),
{
    match float_text_at(j, fp) {
        Some(t) => Some(t),
        None => number_text_at(j, legacy),
    }
}

/// Joins the two rule texts the way a market shows them.
pub fn join_rules(primary: Option<&str>, secondary: Option<&str>) -> (r: Option<String>)
    ensures
        opt_view(r) == rules_of(
            match primary {
                Some(p) => Some(p@),
                None => None,
            },
            match secondary {
                Some(s) => Some(s@),
                None => None,
            },
        ),
{
    let p = match primary {
        Some(p) => if p.unicode_len() > 0 {
            Some(p)
        } else {
            None
        },
        None => None,
    };
    let s = match secondary {
        Some(s) => if s.unicode_len() > 0 {
            Some(s)
        } else {
            None
        },
        None => None,
    };
    match (p, s) {
        (Some(p), Some(s)) => {
            let mut r = concat(p, " | ");
            r.append(s);
            Some(r)
        },
        (Some(p), None) => Some(owned(p)),
        (None, Some(s)) => Some(owned(s)),
        (None, None) => None,
    }
}

/// The status a Kalshi lifecycle word stands for.
pub fn status_of_word(w: Option<&str>) -> (r: MarketStatus)
    ensures
        r == kalshi_status(
            match w {
                Some(s) => Some(s@),
                None => None,
            },
        ),
{
    match w {
        Some(s) => if str_eq(s, "active") {
            MarketStatus::Active
        } else if str_eq(s, "determined") || str_eq(s, "finalized") {
            MarketStatus::Resolved
        } else {
            MarketStatus::Closed
        },
        None => MarketStatus::Active,
    }
}

/// The tier steps of a `price_ranges` array.
fn collect_tick_steps(a: &Vec<Json>) -> (r: Vec<String>)
    ensures
        crate::json::views(r@) == tick_steps_of(a@),
{
    let mut r: Vec<String> = Vec::new();
    let mut i: usize = 0;
    while i < a.len()
        invariant
            i <= a.len(),
            crate::json::views(r@) == tick_steps_of(a@.take(i as int)),
        decreases a.len() - i,
    {
        assert(a@.take(i + 1).drop_last() =~= a@.take(i as int));
        assert(a@.take(i + 1).last() == a@[i as int]);
        let step = match &a[i] {
            Json::Object(_) => float_text_at(&a[i], "step"),
            _ => None,
        };
        match step {
            Some(t) => {
                r.push(t);
                assert(crate::json::views(r@) =~= crate::json::views(r@.drop_last()).push(
                    r@.last()@,
                ));
            },
            None => {},
        }
        i = i + 1;
    }
    assert(a@.take(a.len() as int) =~= a@);
    r
}

/// Reads a Kalshi market object; `None` when it has no string `ticker`.
pub fn parse_market(data: &Json) -> (r: Option<KalshiMarket>)
    ensures
        r is Some <==> str_field(*data, "ticker"@) is Some,
        r matches Some(m) ==> is_kalshi_market(m, *data),
{
    let ticker = match data.get_string("ticker") {
        Some(t) => t,
        None => return None,
    };
    let yes = match data.get_str("yes_sub_title") {
        Some(t) => t,
        None => "",
    };
    let no = match data.get_str("no_sub_title") {
        Some(t) => t,
        None => "",
    };
    proof {
        reveal_strlit("");
    }
    let mut title = concat(yes, " | ");
    title.append(no);
    let rules = join_rules(data.get_str("rules_primary"), data.get_str("rules_secondary"));
    let event_ticker = match data.get_str("event_ticker") {
        Some(t) => if t.unicode_len() > 0 {
            Some(owned(t))
        } else {
            None
        },
        None => None,
    };
    let status = status_of_word(data.get_str("status"));
    let market_type = match data.get_str("market_type") {
        Some(w) => if str_eq(w, "scalar") {
            MarketType::Scalar
        } else {
            MarketType::Binary
        },
        None => MarketType::Binary,
    };
    let tick_steps = match data.get("price_ranges") {
        Some(Json::Array(a)) => collect_tick_steps(a),
        _ => Vec::new(),
    };
    let fractional = match data.get("fractional_trading_enabled") {
        Some(v) => v.as_bool() == Some(true),
        None => false,
    };
    let min_order_size = if fractional {
        owned("0.01")
    } else {
        owned("1")
    };
    let close_time = match data.get_either("close_time", "expiration_time") {
        Some(v) => match v.as_str() {
            Some(s) => rfc3339_millis(s),
            None => None,
        },
        None => None,
    };
    let settlement_time = match data.get("settlement_ts") {
        Some(v) => match v.as_str() {
            Some(s) => rfc3339_millis(s),
            None => match v.as_i64() {
                Some(ts) => secs_to_millis(ts),
                None => None,
            },
        },
        None => None,
    };
    let result = match data.get_str("result") {
        Some(t) => if t.unicode_len() > 0 {
            Some(owned(t))
        } else {
            None
        },
        None => None,
    };
    let openpx_id = concat("kalshi:", ticker.as_str());
    let yes_price = match price_at(data, "yes_ask_dollars", "yes_ask") {
        Some(p) => Some(p),
        None => price_at(data, "last_price_dollars", "last_price"),
    };
    let outcomes = vec![owned("Yes"), owned("No")];
    assert(crate::json::views(outcomes@) =~= seq!["Yes"@, "No"@]);
    assert(title@ == composite_title(*data));
    assert(opt_view(event_ticker) == non_empty(str_field(*data, "event_ticker"@)));
    assert(opt_view(rules) == rules_of(str_field(*data, "rules_primary"@), str_field(*data, "rules_secondary"@)));
    assert(market_type == kalshi_market_type(str_field(*data, "market_type"@)));
    assert(min_order_size@ == min_order_text(
        crate::kalshi::catalog::bool_field(*data, "fractional_trading_enabled"@) == Some(true),
    ));
    assert(settlement_time == settlement_of(data.field("settlement_ts"@)));
    assert(opt_view(result) == non_empty(str_field(*data, "result"@)));
    let m = KalshiMarket {
        openpx_id,
        exchange: owned("kalshi"),
        ticker,
        event_ticker,
        title,
        rules,
        status,
        market_type,
        yes_ask: price_at(data, "yes_ask_dollars", "yes_ask"),
        yes_bid: price_at(data, "yes_bid_dollars", "yes_bid"),
        last_price: price_at(data, "last_price_dollars", "last_price"),
        outcomes,
        yes_price,
        volume: amount_at(data, "volume_fp", "volume"),
        open_interest: number_text_at(data, "open_interest"),
        volume_24h: amount_at(data, "volume_24h_fp", "volume_24h"),
        tick_steps,
        min_order_size,
        close_time,
        open_time: rfc3339_at(data, "open_time"),
        created_at: rfc3339_at(data, "created_time"),
        settlement_time,
        result,
    };
    assert(m.openpx_id@ == "kalshi:"@ + m.ticker@);
    assert(m.exchange@ == "kalshi"@);
    assert(m.status == kalshi_status(str_field(*data, "status"@)));
    assert(crate::json::views(m.tick_steps@) == (match array_field(*data, "price_ranges"@) {
        Some(a) => tick_steps_of(a),
        None => Seq::empty(),
    }));
    assert(m.close_time == (match first_some(data.field("close_time"@), data.field("expiration_time"@)) {
        Some(v) => match v.str_of() {
            Some(s) => spec_rfc3339_millis(s),
            None => None,
        },
        None => None,
    }));
    Some(m)
}

/// A multi-outcome market built from a Kalshi event and its markets: one
/// outcome per market. Volumes are each market's number text (absent ones
/// count as zero); the close time is the latest among the markets.
#[derive(Debug, Clone)]
pub struct EventMarket {
    pub openpx_id: String,
    pub ticker: String,
    pub title: String,
    pub rules: Option<String>,
    pub outcome_labels: Vec<String>,
    pub outcome_prices: Vec<Option<Price>>,
    pub volumes: Vec<Option<String>>,
    pub close_time: Option<i64>,
}

/// The label of an event's market: its YES title, else its title, else its
/// ticker.
pub open spec fn outcome_label_of(m: Json) -> Seq<char> {
    match crate::json::first_some(m.field("yes_sub_title"@), m.field("title"@)) {
        Some(v) => match v.str_of() {
            Some(s) => s,
            None => str_field(m, "ticker"@)->0,
        },
        None => str_field(m, "ticker"@)->0,
    }
}

/// The price of an event's market: the ask or last dollar text, else the
/// legacy ask or last cents.
pub open spec fn outcome_price_of(m: Json) -> Option<(bool, Seq<char>)> {
    match first_some(float_field(m, "yes_ask_dollars"@), float_field(m, "last_price_dollars"@)) {
        Some(t) => Some((true, t)),
        None => match first_some(m.field("yes_ask"@), m.field("last_price"@)) {
            Some(v) => match crate::json::number_text_of(v) {
                Some(t) => Some((false, t)),
                None => None,
            },
            None => None,
        },
    }
}

/// The close time of an event's market.
pub open spec fn market_close_of(m: Json) -> Option<i64> {
    match first_some(m.field("close_time"@), m.field("expiration_time"@)) {
        Some(v) => match v.str_of() {
            Some(s) => spec_rfc3339_millis(s),
            None => None,
        },
        None => None,
    }
}

/// The latest of the close times of `ms`.
pub open spec fn latest_close(ms: Seq<Json>) -> Option<i64>
    decreases ms.len(),
{
    if ms.len() == 0 {
        None
    } else {
        let rest = latest_close(ms.drop_last());
        match market_close_of(ms.last()) {
            Some(t) => match rest {
                Some(e) => if e > t {
                    Some(e)
                } else {
                    Some(t)
                },
                None => Some(t),
            },
            None => rest,
        }
    }
}

/// Every market of the event is an object with a string ticker.
pub open spec fn event_markets_ok(ms: Seq<Json>) -> bool {
    forall|i: int| 0 <= i < ms.len() ==> (#[trigger] ms[i]) is Object && str_field(ms[i], "ticker"@) is Some
}

/// Whether `m` is the market built from event `e` and its markets `ms`.
pub open spec fn is_event_market(m: EventMarket, e: Json, ms: Seq<Json>) -> bool {
    &&& str_field(e, "event_ticker"@) == Some(m.ticker@)
    &&& m.openpx_id@ == "kalshi:"@ + m.ticker@
    &&& m.title@ == text_or_empty(str_field(e, "title"@))
    &&& opt_view(m.rules) == (match first_some(e.field("subtitle"@), e.field("description"@)) {
        Some(v) => non_empty(v.str_of()),
        None => None,
    })
    &&& m.outcome_labels@.len() == ms.len()
    &&& m.outcome_prices@.len() == ms.len()
    &&& m.volumes@.len() == ms.len()
    &&& forall|i: int|
        0 <= i < ms.len() ==> (#[trigger] m.outcome_labels@[i])@ == outcome_label_of(ms[i])
            && price_view(m.outcome_prices@[i]) == outcome_price_of(ms[i]) && opt_view(
            m.volumes@[i],
        ) == amount_field(ms[i], "volume_fp"@, "volume"@)
    &&& m.close_time == latest_close(ms)
}

/// Builds the multi-outcome market of an event; `None` when the event has
/// no string `event_ticker` or one of its markets lacks a string ticker.
pub fn parse_event_as_market(event: &Json, markets: &Vec<Json>) -> (r: Option<EventMarket>)
    ensures
        r is Some <==> (event is Object && str_field(*event, "event_ticker"@) is Some
            && event_markets_ok(markets@)),
        r matches Some(m) ==> is_event_market(m, *event, markets@),
{
    match event {
        Json::Object(_) => {},
        _ => return None,
    }
    let ticker = match event.get_string("event_ticker") {
        Some(t) => t,
        None => return None,
    };
    let title = match event.get_str("title") {
        Some(t) => owned(t),
        None => String::new(),
    };
    let rules = match event.get_either("subtitle", "description") {
        Some(v) => match v.as_str() {
            Some(s) => if s.unicode_len() > 0 {
                Some(owned(s))
            } else {
                None
            },
            None => None,
        },
        None => None,
    };
    let mut labels: Vec<String> = Vec::new();
    let mut prices: Vec<Option<Price>> = Vec::new();
    let mut volumes: Vec<Option<String>> = Vec::new();
    let mut close: Option<i64> = None;
    let mut i: usize = 0;
    while i < markets.len()
        invariant
            i <= markets.len(),
            labels@.len() == i,
            prices@.len() == i,
            volumes@.len() == i,
            event_markets_ok(markets@.take(i as int)),
            close == latest_close(markets@.take(i as int)),
            forall|k: int|
                0 <= k < i ==> (#[trigger] labels@[k])@ == outcome_label_of(markets@[k])
                    && price_view(prices@[k]) == outcome_price_of(markets@[k]) && opt_view(
                    volumes@[k],
                ) == amount_field(markets@[k], "volume_fp"@, "volume"@),
        decreases markets.len() - i,
    {
        assert(markets@.take(i + 1).drop_last() =~= markets@.take(i as int));
        assert(markets@.take(i + 1).last() == markets@[i as int]);
        let m = &markets[i];
        match m {
            Json::Object(_) => {},
            _ => {
                proof {
                    if event_markets_ok(markets@) {
                        assert(markets@[i as int] is Object);
                    }
                }
                return None;
            },
        }
        let mt = match m.get_str("ticker") {
            Some(t) => t,
            None => {
                proof {
                    if event_markets_ok(markets@) {
                        assert(str_field(markets@[i as int], "ticker"@) is Some);
                    }
                }
                return None;
            },
        };
        let label = match m.get_either("yes_sub_title", "title") {
            Some(v) => match v.as_str() {
                Some(s) => owned(s),
                None => owned(mt),
            },
            None => owned(mt),
        };
        let price = match float_text_at(m, "yes_ask_dollars") {
            Some(t) => Some(Price::Decimal(t)),
            None => match float_text_at(m, "last_price_dollars") {
                Some(t) => Some(Price::Decimal(t)),
                None => match m.get_either("yes_ask", "last_price") {
                    Some(v) => match number_text(v) {
                        Some(t) => Some(Price::Cents(t)),
                        None => None,
                    },
                    None => None,
                },
            },
        };
        let ct = match m.get_either("close_time", "expiration_time") {
            Some(v) => match v.as_str() {
                Some(s) => rfc3339_millis(s),
                None => None,
            },
            None => None,
        };
        close = match ct {
            Some(t) => match close {
                Some(e) => if e > t {
                    Some(e)
                } else {
                    Some(t)
                },
                None => Some(t),
            },
            None => close,
        };
        let ghost bl = labels@;
        let ghost bp = prices@;
        let ghost bv = volumes@;
        labels.push(label);
        prices.push(price);
        volumes.push(amount_at(m, "volume_fp", "volume"));
        proof {
            assert forall|k: int| 0 <= k < i + 1 implies (#[trigger] labels@[k])@ == outcome_label_of(
                markets@[k],
            ) && price_view(prices@[k]) == outcome_price_of(markets@[k]) && opt_view(volumes@[k])
                == amount_field(markets@[k], "volume_fp"@, "volume"@) by {
                if k < i {
                    assert(labels@[k] == bl[k]);
                    assert(prices@[k] == bp[k]);
                    assert(volumes@[k] == bv[k]);
                }
            }
            assert forall|k: int| 0 <= k < i + 1 implies (#[trigger] markets@.take(i + 1)[k]) is Object
                && str_field(markets@.take(i + 1)[k], "ticker"@) is Some by {
                if k < i {
                    assert(markets@.take(i + 1)[k] == markets@.take(i as int)[k]);
                }
            }
        }
        i = i + 1;
    }
    assert(markets@.take(markets.len() as int) =~= markets@);
    let openpx_id = concat("kalshi:", ticker.as_str());
    Some(
        EventMarket {
            openpx_id,
            ticker,
            title,
            rules,
            outcome_labels: labels,
            outcome_prices: prices,
            volumes,
            close_time: close,
        },
    )
}

} // verus!
