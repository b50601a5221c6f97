//! Kalshi events and series, read from their JSON objects.

use vstd::prelude::*;

use crate::json::{
    array_field, collect_keyed_strs, collect_strs, item_strs, keyed_strs, opt_view, str_field,
    views, Json,
};
use crate::models::{Event, Series, SettlementSource};
use crate::number::{float_field, float_text_at};
use crate::time::{rfc3339_at, rfc3339_field};

verus! {

/// The text of `o`, or nothing when it is absent or empty.
pub open spec fn non_empty(o: Option<Seq<char>>) -> Option<Seq<char>> {
    match o {
        Some(t) => if t.len() > 0 {
            Some(t)
        } else {
            None
        },
        None => None,
    }
}

/// The text of `o`, or the empty text.
pub open spec fn text_or_empty(o: Option<Seq<char>>) -> Seq<char> {
    match o {
        Some(t) => t,
        None => Seq::empty(),
    }
}

/// The boolean member `key` of `j`.
pub open spec fn bool_field(j: Json, key: Seq<char>) -> Option<bool> {
    match j.field(key) {
        Some(v) => v.bool_of(),
        None => None,
    }
}

/// The strings of the array member `key` of `j`, each element's member
/// `inner` (none when the member is absent or not an array).
pub open spec fn keyed_strs_at(j: Json, key: Seq<char>, inner: Seq<char>) -> Seq<Seq<char>> {
    match array_field(j, key) {
        Some(a) => keyed_strs(a, inner),
        None => Seq::empty(),
    }
}

/// Whether `e` is the event that a Kalshi event object `v` describes.
pub open spec fn is_kalshi_event(e: Event, v: Json) -> bool {
    &&& str_field(v, "event_ticker"@) == Some(e.ticker@)
    &&& e.numeric_id is None
    &&& e.title@ == text_or_empty(str_field(v, "title"@))
    &&& opt_view(e.description) == non_empty(str_field(v, "sub_title"@))
    &&& e.category is None
    &&& opt_view(e.series_ticker) == str_field(v, "series_ticker"@)
    &&& e.status is None
    &&& views(e.market_tickers@) == keyed_strs_at(v, "markets"@, "ticker"@)
    &&& e.start_ts is None
    &&& e.end_ts == rfc3339_field(v, "strike_date"@)
    &&& e.volume is None
    &&& e.open_interest is None
    &&& e.mutually_exclusive == bool_field(v, "mutually_exclusive"@)
    &&& e.last_updated_ts == rfc3339_field(v, "last_updated_ts"@)
}

/// The optional member `key` of `j` as a boolean.
fn bool_at(j: &Json, key: &str) -> (r: Option<bool>)
    ensures
        r == bool_field(*j, key@),
{
    match j.get(key) {
        Some(v) => v.as_bool(),
        None => None,
    }
}

/// Reads a Kalshi event object; `None` when it has no string
/// `event_ticker`. The strike date is the event's end time.
pub fn parse_kalshi_event(value: &Json) -> (r: Option<Event>)
    ensures
        r is Some <==> str_field(*value, "event_ticker"@) is Some,
        r matches Some(e) ==> is_kalshi_event(e, *value),
{
    let ticker = match value.get_string("event_ticker") {
        Some(t) => t,
        None => return None,
    };
    let title = match value.get_string("title") {
        Some(t) => t,
        None => String::new(),
    };
    let description = match value.get_str("sub_title") {
        Some(t) => if t.unicode_len() > 0 {
            Some(t.to_owned())
        } else {
            None
        },
        None => None,
    };
    let market_tickers = match value.get("markets") {
        Some(Json::Array(a)) => collect_keyed_strs(a, "ticker"),
        _ => Vec::new(),
    };
    assert(title@ == text_or_empty(str_field(*value, "title"@)));
    assert(opt_view(description) == non_empty(str_field(*value, "sub_title"@)));
    assert(views(market_tickers@) == keyed_strs_at(*value, "markets"@, "ticker"@));
    Some(
        Event {
            ticker,
            numeric_id: None,
            title,
            description,
            category: None,
            series_ticker: value.get_string("series_ticker"),
            status: None,
            market_tickers,
            start_ts: None,
            end_ts: rfc3339_at(value, "strike_date"),
            volume: None,
            open_interest: None,
            mutually_exclusive: bool_at(value, "mutually_exclusive"),
            last_updated_ts: rfc3339_at(value, "last_updated_ts"),
        },
    )
}

/// The `(name, url)` of each settlement source object in `a`.
pub open spec fn sources_of(a: Seq<Json>) -> Seq<(Option<Seq<char>>, Option<Seq<char>>)> {
    a.map_values(|s: Json| (str_field(s, "name"@), str_field(s, "url"@)))
}

/// The `(name, url)` texts of settlement sources.
pub open spec fn sources_view(v: Seq<SettlementSource>) -> Seq<(Option<Seq<char>>, Option<Seq<char>>)> {
    v.map_values(|s: SettlementSource| (opt_view(s.name), opt_view(s.url)))
}

/// Whether `s` is the series that a Kalshi series object `v` describes.
pub open spec fn is_kalshi_series(s: Series, v: Json) -> bool {
    &&& str_field(v, "ticker"@) == Some(s.ticker@)
    &&& s.numeric_id is None
    &&& s.title@ == text_or_empty(str_field(v, "title"@))
    &&& opt_view(s.category) == str_field(v, "category"@)
    &&& opt_view(s.frequency) == str_field(v, "frequency"@)
    &&& views(s.tags@) == (match array_field(v, "tags"@) {
        Some(a) => item_strs(a),
        None => Seq::empty(),
    })
    &&& sources_view(s.settlement_sources@) == (match array_field(v, "settlement_sources"@) {
        Some(a) => sources_of(a),
        None => Seq::empty(),
    })
    &&& opt_view(s.fee_type) == str_field(v, "fee_type"@)
    &&& opt_view(s.volume) == float_field(v, "volume_fp"@)
    &&& s.last_updated_ts == rfc3339_field(v, "last_updated_ts"@)
}

/// Reads the settlement source objects of `a`.
fn collect_sources(a: &Vec<Json>) -> (r: Vec<SettlementSource>)
    ensures
        sources_view(r@) == sources_of(a@),
{
    let mut r: Vec<SettlementSource> = Vec::new();
    let mut i: usize = 0;
    while i < a.len()
        invariant
            i <= a.len(),
            sources_view(r@) == sources_of(a@.take(i as int)),
        decreases a.len() - i,
    {
        let s = SettlementSource { name: a[i].get_string("name"), url: a[i].get_string("url") };
        r.push(s);
        assert(sources_of(a@.take(i + 1)) =~= sources_of(a@.take(i as int)).push(
            (str_field(a@[i as int], "name"@), str_field(a@[i as int], "url"@)),
        ));
        assert(sources_view(r@) =~= sources_view(r@.drop_last()).push(
            (opt_view(s.name), opt_view(s.url)),
        ));
        i = i + 1;
    }
    assert(a@.take(a.len() as int) =~= a@);
    r
}

/// Reads a Kalshi series object; `None` when it has no string `ticker`.
/// `volume_fp` is kept as its number text.
pub fn parse_kalshi_series(value: &Json) -> (r: Option<Series>)
    ensures
        r is Some <==> str_field(*value, "ticker"@) is Some,
        r matches Some(s) ==> is_kalshi_series(s, *value),
{
    let ticker = match value.get_string("ticker") {
        Some(t) => t,
        None => return None,
    };
    let title = match value.get_string("title") {
        Some(t) => t,
        None => String::new(),
    };
    let tags = match value.get("tags") {
        Some(Json::Array(a)) => collect_strs(a),
        _ => Vec::new(),
    };
    let settlement_sources = match value.get("settlement_sources") {
        Some(Json::Array(a)) => collect_sources(a),
        _ => Vec::new(),
    };
    assert(title@ == text_or_empty(str_field(*value, "title"@)));
    assert(views(tags@) == (match array_field(*value, "tags"@) {
        Some(a) => item_strs(a),
        None => Seq::empty(),
    }));
    assert(sources_view(settlement_sources@) == (match array_field(*value, "settlement_sources"@) {
        Some(a) => sources_of(a),
        None => Seq::empty(),
    }));
    Some(
        Series {
            ticker,
            numeric_id: None,
            title,
            category: value.get_string("category"),
            frequency: value.get_string("frequency"),
            tags,
            settlement_sources,
            fee_type: value.get_string("fee_type"),
            volume: float_text_at(value, "volume_fp"),
            last_updated_ts: rfc3339_at(value, "last_updated_ts"),
        },
    )
}

/// An event fetched with its markets beside it: the event's own market
/// tickers, or, when it lists none, those of the markets beside it.
pub fn event_with_markets(event: &Json, markets: Option<&Vec<Json>>) -> (r: Option<Event>)
    ensures
        r is Some <==> str_field(*event, "event_ticker"@) is Some,
        r matches Some(e) ==> {
            let own = keyed_strs_at(*event, "markets"@, "ticker"@);
            &&& views(e.market_tickers@) == (if own.len() == 0 && markets is Some {
                keyed_strs(markets->0@, "ticker"@)
            } else {
                own
            })
            &&& str_field(*event, "event_ticker"@) == Some(e.ticker@)
            &&& e.title@ == text_or_empty(str_field(*event, "title"@))
            &&& opt_view(e.description) == non_empty(str_field(*event, "sub_title"@))
            &&& opt_view(e.series_ticker) == str_field(*event, "series_ticker"@)
            &&& e.end_ts == rfc3339_field(*event, "strike_date"@)
            &&& e.mutually_exclusive == bool_field(*event, "mutually_exclusive"@)
            &&& e.last_updated_ts == rfc3339_field(*event, "last_updated_ts"@)
        },
{
    let mut e = match parse_kalshi_event(event) {
        Some(e) => e,
        None => return None,
    };
    if e.market_tickers.len() == 0 {
        match markets {
            Some(ms) => {
                e.market_tickers = collect_keyed_strs(ms, "ticker");
            },
            None => {},
        }
    }
    Some(e)
}

} // verus!
