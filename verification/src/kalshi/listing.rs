//! Listing Kalshi markets: which requests a listing makes, the compound
//! cursor over live and historical markets, and what a page yields.

use vstd::prelude::*;
use vstd::string::*;

use crate::json::{opt_view, parse_json, quote_json, spec_parse_json, spec_quoted, str_field, Json};
use crate::kalshi::market::{is_kalshi_market, kalshi_status, parse_market, KalshiMarket};
use crate::models::{requested_status, status_for_filter, FetchMarketsParams, MarketStatus, MarketStatusFilter};
use crate::text::{concat, decimal, owned, push_decimal};

verus! {

/// The filter a listing applies: the one asked for, else active markets.
pub open spec fn effective_filter(f: Option<MarketStatusFilter>) -> MarketStatusFilter {
    match f {
        Some(x) => x,
        None => MarketStatusFilter::Active,
    }
}

/// The `status` value of the live `/markets` query for a filter.
pub open spec fn live_status(f: MarketStatusFilter) -> Option<Seq<char>> {
    match f {
        MarketStatusFilter::Active => Some("open"@),
        MarketStatusFilter::Closed => Some("closed"@),
        MarketStatusFilter::Resolved => Some("settled"@),
        MarketStatusFilter::All => None,
    }
}

/// Settled markets from before the historical cutoff are wanted only for
/// `Resolved` and `All`.
pub open spec fn includes_historical(f: MarketStatusFilter) -> bool {
    f == MarketStatusFilter::Resolved || f == MarketStatusFilter::All
}

/// The page size: the one asked for (200 by default), at most 1000.
pub open spec fn page_limit_of(limit: Option<usize>) -> nat {
    let l: nat = match limit {
        Some(l) => l as nat,
        None => 200,
    };
    if l < 1000 {
        l
    } else {
        1000
    }
}

/// The page size of a listing.
pub fn page_limit(limit: Option<usize>) -> (r: usize)
    ensures
        r == page_limit_of(limit),
{
    let l = match limit {
        Some(l) => l,
        None => 200,
    };
    if l < 1000 {
        l
    } else {
        1000
    }
}

/// The compound resume point of a listing over live (`r`) and historical
/// (`h`) markets. `None` on a side means that side is exhausted; the empty
/// cursor means its first page.
#[derive(Debug, Clone)]
pub struct CursorState {
    pub r: Option<String>,
    pub h: Option<String>,
}

/// The cursors of a state.
pub open spec fn state_view(s: CursorState) -> (Option<Seq<char>>, Option<Seq<char>>) {
    (opt_view(s.r), opt_view(s.h))
}

/// The state a listing starts from: the live side at its first page, and
/// the historical side too when the filter wants it.
pub open spec fn fresh_state(f: MarketStatusFilter) -> (Option<Seq<char>>, Option<Seq<char>>) {
    (Some(Seq::empty()), if includes_historical(f) {
        Some(Seq::empty())
    } else {
        None
    })
}

/// One side of a decoded cursor object: absent and `null` are `None`, a
/// string is that cursor; any other value makes the whole cursor invalid.
pub open spec fn cursor_side(v: Option<Json>) -> Option<Option<Seq<char>>> {
    match v {
        None => Some(None),
        Some(Json::Null) => Some(None),
        Some(Json::Str(s)) => Some(Some(s@)),
        _ => None,
    }
}

/// The state a decoded cursor document describes: an object with optional
/// `r` and `h`, or a two-element array of them; `None` when it is neither.
pub open spec fn state_of_json(j: Json) -> Option<(Option<Seq<char>>, Option<Seq<char>>)> {
    match j {
        Json::Object(_) => match (cursor_side(j.field("r"@)), cursor_side(j.field("h"@))) {
            (Some(r), Some(h)) => Some((r, h)),
            _ => None,
        },
        Json::Array(a) => if a@.len() == 2 {
            match (cursor_side(Some(a@[0])), cursor_side(Some(a@[1]))) {
                (Some(r), Some(h)) => Some((r, h)),
                _ => None,
            }
        } else {
            None
        },
        _ => None,
    }
}

/// The state a listing resumes from: the decoded caller cursor, or a fresh
/// start when there is none or it cannot be read.
pub open spec fn resumed_state(cursor: Option<Seq<char>>, f: MarketStatusFilter) -> (Option<Seq<char>>, Option<Seq<char>>) {
    match cursor {
        None => fresh_state(f),
        Some(t) => match spec_parse_json(t) {
            Some(j) => match state_of_json(j) {
                Some(s) => s,
                None => fresh_state(f),
            },
            None => fresh_state(f),
        },
    }
}

/// Reads one side of a cursor object.
fn side_of(v: Option<&Json>) -> (r: Option<Option<String>>)
    ensures
        match r {
            Some(o) => cursor_side(
                match v {
                    Some(x) => Some(*x),
                    None => None,
                },
            ) == Some(opt_view(o)),
            None => cursor_side(
                match v {
                    Some(x) => Some(*x),
                    None => None,
                },
            ) is None,
        },
{
    match v {
        None => Some(None),
        Some(Json::Null) => Some(None),
        Some(Json::Str(s)) => Some(Some(s.clone())),
        _ => None,
    }
}

impl CursorState {
    /// The state of a fresh listing under filter `f`.
    pub fn fresh(f: MarketStatusFilter) -> (r: CursorState)
        ensures
            state_view(r) == fresh_state(f),
    {
        proof {
            reveal_strlit("");
        }
        let h = if f == MarketStatusFilter::Resolved || f == MarketStatusFilter::All {
            Some(owned(""))
        } else {
            None
        };
        CursorState { r: Some(owned("")), h }
    }

    /// Decodes a caller cursor; a fresh start when there is none or it is
    /// not a cursor document.
    pub fn resume(cursor: Option<&str>, f: MarketStatusFilter) -> (r: CursorState)
        ensures
            state_view(r) == resumed_state(
                match cursor {
                    Some(t) => Some(t@),
                    None => None,
                },
                f,
            ),
    {
        let t = match cursor {
            None => return Self::fresh(f),
            Some(t) => t,
        };
        let j = match parse_json(t) {
            Some(j) => j,
            None => return Self::fresh(f),
        };
        let sides = match &j {
            Json::Object(_) => (side_of(j.get("r")), side_of(j.get("h"))),
            Json::Array(a) => if a.len() == 2 {
                (side_of(Some(&a[0])), side_of(Some(&a[1])))
            } else {
                (None, None)
            },
            _ => (None, None),
        };
        match sides {
            (Some(r), Some(h)) => CursorState { r, h },
            _ => Self::fresh(f),
        }
    }

    /// The cursor handed back to the caller: `{"r":..,"h":..}` with the
    /// exhausted sides left out, or `None` once both sides are exhausted.
    /// The members keep the order `r`, `h` of the cursor's fields, which a
    /// `serde_json` object (its keys sorted) would not; each value is
    /// written by `serde_json`'s string writer.
    pub fn encode(&self) -> (r: Option<String>)
        ensures
            r is None <==> (self.r is None && self.h is None),
            r matches Some(t) ==> t@ == encoded_state(state_view(*self)),
    {
        if self.r.is_none() && self.h.is_none() {
            return None;
        }
        let mut out = owned("{");
        match &self.r {
            Some(r) => {
                out.append("\"r\":");
                let q = quote_json(r.as_str());
                out.append(q.as_str());
            },
            None => {},
        }
        match &self.h {
            Some(h) => {
                if self.r.is_some() {
                    out.append(",");
                }
                out.append("\"h\":");
                let q = quote_json(h.as_str());
                out.append(q.as_str());
            },
            None => {},
        }
        out.append("}");
        Some(out)
    }
}

/// The text of a cursor state: the members present, `r` before `h`.
pub open spec fn encoded_state(s: (Option<Seq<char>>, Option<Seq<char>>)) -> Seq<char> {
    let r_part = match s.0 {
        Some(r) => "\"r\":"@ + spec_quoted(r),
        None => Seq::empty(),
    };
    let sep = if s.0 is Some && s.1 is Some {
        ","@
    } else {
        Seq::empty()
    };
    let h_part = match s.1 {
        Some(h) => "\"h\":"@ + spec_quoted(h),
        None => Seq::empty(),
    };
    "{"@ + r_part + sep + h_part + "}"@
}

/// The query suffix `&{key}={value}`.
pub open spec fn query_part(key: Seq<char>, value: Seq<char>) -> Seq<char> {
    "&"@ + key + "="@ + value
}

/// A part present only with a value.
pub open spec fn opt_part(key: Seq<char>, value: Option<Seq<char>>) -> Seq<char> {
    match value {
        Some(v) => query_part(key, v),
        None => Seq::empty(),
    }
}

/// The cursor part, left out for the first page.
pub open spec fn cursor_part(cursor: Seq<char>) -> Seq<char> {
    if cursor.len() == 0 {
        Seq::empty()
    } else {
        query_part("cursor"@, cursor)
    }
}

/// The live page request.
pub open spec fn live_endpoint_of(limit: nat, f: MarketStatusFilter, series: Option<Seq<char>>, cursor: Seq<char>) -> Seq<char> {
    "/markets?limit="@ + decimal(limit) + opt_part("status"@, live_status(f)) + opt_part(
        "series_ticker"@,
        series,
    ) + cursor_part(cursor)
}

/// The historical page request.
pub open spec fn historical_endpoint_of(limit: nat, series: Option<Seq<char>>, cursor: Seq<char>) -> Seq<char> {
    "/historical/markets?limit="@ + decimal(limit) + opt_part("series_ticker"@, series)
        + cursor_part(cursor)
}

/// Appends `&{key}={value}`.
pub fn push_query(out: &mut String, key: &str, value: &str)
    ensures
        final(out)@ == old(out)@ + query_part(key@, value@),
{
    out.append("&");
    out.append(key);
    out.append("=");
    out.append(value);
}

/// Appends the cursor part.
fn push_cursor(out: &mut String, cursor: &str)
    ensures
        final(out)@ == old(out)@ + cursor_part(cursor@),
{
    if cursor.unicode_len() > 0 {
        push_query(out, "cursor", cursor);
    } else {
        assert(old(out)@ + cursor_part(cursor@) =~= old(out)@);
    }
}

/// Appends the series part.
fn push_series(out: &mut String, series: Option<&str>)
    ensures
        final(out)@ == old(out)@ + opt_part(
            "series_ticker"@,
            match series {
                Some(t) => Some(t@),
                None => None,
            },
        ),
{
    match series {
        Some(t) => push_query(out, "series_ticker", t),
        None => {
            assert(old(out)@ + Seq::<char>::empty() =~= old(out)@);
        },
    }
}

/// The live page request for a cursor.
pub fn live_endpoint(limit: usize, f: MarketStatusFilter, series: Option<&str>, cursor: &str) -> (r: String)
    ensures
        r@ == live_endpoint_of(
            limit as nat,
            f,
            match series {
                Some(t) => Some(t@),
                None => None,
            },
            cursor@,
        ),
{
    let mut out = owned("/markets?limit=");
    push_decimal(&mut out, limit as u64);
    let ghost after_limit = out@;
    match f {
        MarketStatusFilter::Active => push_query(&mut out, "status", "open"),
        MarketStatusFilter::Closed => push_query(&mut out, "status", "closed"),
        MarketStatusFilter::Resolved => push_query(&mut out, "status", "settled"),
        MarketStatusFilter::All => {},
    }
    assert(out@ =~= after_limit + opt_part("status"@, live_status(f)));
    push_series(&mut out, series);
    push_cursor(&mut out, cursor);
    assert(out@ =~= live_endpoint_of(
        limit as nat,
        f,
        match series {
            Some(t) => Some(t@),
            None => None,
        },
        cursor@,
    ));
    out
}

/// The historical page request for a cursor.
pub fn historical_endpoint(limit: usize, series: Option<&str>, cursor: &str) -> (r: String)
    ensures
        r@ == historical_endpoint_of(
            limit as nat,
            match series {
                Some(t) => Some(t@),
                None => None,
            },
            cursor@,
        ),
{
    let mut out = owned("/historical/markets?limit=");
    push_decimal(&mut out, limit as u64);
    push_series(&mut out, series);
    push_cursor(&mut out, cursor);
    assert(out@ =~= historical_endpoint_of(
        limit as nat,
        match series {
            Some(t) => Some(t@),
            None => None,
        },
        cursor@,
    ));
    out
}

/// The rows of a page that become markets under `want`: those with a
/// string `ticker` whose status is the one wanted (any, for `None`).
pub open spec fn kept_rows(rows: Seq<Json>, want: Option<MarketStatus>) -> Seq<Json>
    decreases rows.len(),
{
    if rows.len() == 0 {
        Seq::empty()
    } else {
        let rest = kept_rows(rows.drop_last(), want);
        let row = rows.last();
        if str_field(row, "ticker"@) is Some && (want is None || want == Some(
            kalshi_status(str_field(row, "status"@)),
        )) {
            rest.push(row)
        } else {
            rest
        }
    }
}

/// Whether `ms` are the markets of `rows`, in order.
pub open spec fn markets_of_rows(ms: Seq<KalshiMarket>, rows: Seq<Json>) -> bool {
    &&& ms.len() == rows.len()
    &&& forall|i: int| 0 <= i < ms.len() ==> is_kalshi_market(#[trigger] ms[i], rows[i])
}

/// Parses the rows of a page and keeps the markets of the wanted status.
pub fn collect_markets(rows: &Vec<Json>, want: Option<MarketStatus>) -> (r: Vec<KalshiMarket>)
    ensures
        markets_of_rows(r@, kept_rows(rows@, want)),
{
    let mut r: Vec<KalshiMarket> = Vec::new();
    let mut i: usize = 0;
    while i < rows.len()
        invariant
            i <= rows.len(),
            markets_of_rows(r@, kept_rows(rows@.take(i as int), want)),
        decreases rows.len() - i,
    {
        assert(rows@.take(i + 1).drop_last() =~= rows@.take(i as int));
        assert(rows@.take(i + 1).last() == rows@[i as int]);
        match parse_market(&rows[i]) {
            Some(m) => {
                let keep = match want {
                    None => true,
                    Some(w) => m.status == w,
                };
                if keep {
                    r.push(m);
                }
            },
            None => {},
        }
        i = i + 1;
    }
    assert(rows@.take(rows.len() as int) =~= rows@);
    r
}

/// The next cursor of a side: Kalshi's empty cursor ends the stream.
pub open spec fn next_side(c: Option<Seq<char>>) -> Option<Seq<char>> {
    match c {
        Some(t) => if t.len() > 0 {
            Some(t)
        } else {
            None
        },
        None => None,
    }
}

/// The next cursor of a side.
pub fn next_cursor(c: Option<String>) -> (r: Option<String>)
    ensures
        opt_view(r) == next_side(opt_view(c)),
{
    match c {
        Some(t) => if t.unicode_len() > 0 {
            Some(t)
        } else {
            None
        },
        None => None,
    }
}

/// The requests a listing makes.
#[derive(Debug)]
pub enum MarketsRequest {
    /// One lookup of the listed tickers.
    Tickers(String),
    /// One lookup of an event's nested markets.
    Event(String),
    /// A page of live and of historical markets, each when its side is
    /// not exhausted.
    Pages { live: Option<String>, historical: Option<String> },
}

/// `a,b,c` from the texts of `v`.
pub open spec fn joined(v: Seq<Seq<char>>) -> Seq<char>
    decreases v.len(),
{
    if v.len() == 0 {
        Seq::empty()
    } else if v.len() == 1 {
        v[0]
    } else {
        joined(v.drop_last()) + ","@ + v.last()
    }
}

/// Joins texts with commas (`[String]::join(",")`).
pub fn join_commas(v: &Vec<String>) -> (r: String)
    ensures
        r@ == joined(crate::json::views(v@)),
{
    let mut out = String::new();
    let mut i: usize = 0;
    while i < v.len()
        invariant
            i <= v.len(),
            out@ == joined(crate::json::views(v@.take(i as int))),
        decreases v.len() - i,
    {
        assert(crate::json::views(v@.take(i + 1)).drop_last() =~= crate::json::views(v@.take(i as int)));
        if i > 0 {
            out.append(",");
        }
        out.append(v[i].as_str());
        i = i + 1;
    }
    assert(v@.take(v.len() as int) =~= v@);
    out
}

/// The requests a listing with `params` makes, given the side states it
/// resumes from: explicit tickers first, then an event, else paged.
pub open spec fn planned(p: FetchMarketsParams, r: MarketsRequestView) -> bool {
    let f = effective_filter(p.status);
    let limit = page_limit_of(p.limit);
    let st = resumed_state(opt_view(p.cursor), f);
    match r {
        MarketsRequestView::Tickers(e) => p.market_tickers@.len() > 0 && e == "/markets?tickers="@
            + joined(crate::json::views(p.market_tickers@)),
        MarketsRequestView::Event(e) => p.market_tickers@.len() == 0 && (match p.event_ticker {
            Some(t) => e == "/events/"@ + t@,
            None => false,
        }),
        MarketsRequestView::Pages(live, hist) => p.market_tickers@.len() == 0
            && p.event_ticker is None && live == (match st.0 {
            Some(c) => Some(live_endpoint_of(limit, f, opt_view(p.series_ticker), c)),
            None => None,
        }) && hist == (match st.1 {
            Some(c) => Some(historical_endpoint_of(limit, opt_view(p.series_ticker), c)),
            None => None,
        }),
    }
}

/// The texts of a request.
pub enum MarketsRequestView {
    Tickers(Seq<char>),
    Event(Seq<char>),
    Pages(Option<Seq<char>>, Option<Seq<char>>),
}

/// The view of a request.
pub open spec fn request_view(r: MarketsRequest) -> MarketsRequestView {
    match r {
        MarketsRequest::Tickers(e) => MarketsRequestView::Tickers(e@),
        MarketsRequest::Event(e) => MarketsRequestView::Event(e@),
        MarketsRequest::Pages { live, historical } => MarketsRequestView::Pages(
            opt_view(live),
            opt_view(historical),
        ),
    }
}

/// Decides the requests of a listing.
pub fn plan_markets(params: &FetchMarketsParams) -> (r: MarketsRequest)
    ensures
        planned(*params, request_view(r)),
{
    if params.market_tickers.len() > 0 {
        let j = join_commas(&params.market_tickers);
        return MarketsRequest::Tickers(concat("/markets?tickers=", j.as_str()));
    }
    match &params.event_ticker {
        Some(t) => {
            return MarketsRequest::Event(concat("/events/", t.as_str()));
        },
        None => {},
    }
    let f = match params.status {
        Some(x) => x,
        None => MarketStatusFilter::Active,
    };
    let limit = page_limit(params.limit);
    let cursor = match &params.cursor {
        Some(c) => Some(c.as_str()),
        None => None,
    };
    let state = CursorState::resume(cursor, f);
    let series = match &params.series_ticker {
        Some(s) => Some(s.as_str()),
        None => None,
    };
    let live = match &state.r {
        Some(c) => Some(live_endpoint(limit, f, series, c.as_str())),
        None => None,
    };
    let historical = match &state.h {
        Some(c) => Some(historical_endpoint(limit, series, c.as_str())),
        None => None,
    };
    MarketsRequest::Pages { live, historical }
}

/// What the pages of a listing give: the markets of the live page, then
/// those of the historical page, each kept under the filter's status, and
/// the cursor of the sides that go on.
pub fn finish_pages(
    live: Option<(Vec<Json>, Option<String>)>,
    historical: Option<(Vec<Json>, Option<String>)>,
    filter: MarketStatusFilter,
) -> (r: (Vec<KalshiMarket>, Option<String>))
    ensures
        markets_of_rows(
            r.0@,
            match live {
                Some(p) => kept_rows(p.0@, requested_status(filter)),
                None => Seq::empty(),
            } + match historical {
                Some(p) => kept_rows(p.0@, requested_status(filter)),
                None => Seq::empty(),
            },
        ),
        ({
            let st = (
                match live {
                    Some(p) => next_side(opt_view(p.1)),
                    None => None,
                },
                match historical {
                    Some(p) => next_side(opt_view(p.1)),
                    None => None,
                },
            );
            &&& r.1 is None <==> (st.0 is None && st.1 is None)
            &&& r.1 matches Some(t) ==> t@ == encoded_state(st)
        }),
{
    let want = status_for_filter(filter);
    let mut all: Vec<KalshiMarket> = Vec::new();
    let mut r_side: Option<String> = None;
    let mut h_side: Option<String> = None;
    let ghost live_rows: Seq<Json> = Seq::empty();
    match live {
        Some((rows, c)) => {
            all = collect_markets(&rows, want);
            proof {
                live_rows = kept_rows(rows@, want);
            }
            r_side = next_cursor(c);
        },
        None => {},
    }
    let ghost n = all@.len();
    match historical {
        Some((rows, c)) => {
            let mut more = collect_markets(&rows, want);
            let ghost before = all@;
            let ghost added = more@;
            all.append(&mut more);
            proof {
                assert forall|i: int| 0 <= i < all@.len() implies is_kalshi_market(
                    #[trigger] all@[i],
                    (live_rows + kept_rows(rows@, want))[i],
                ) by {
                    if i >= n {
                        assert(all@[i] == added[i - n]);
                    } else {
                        assert(all@[i] == before[i]);
                    }
                }
            }
            h_side = next_cursor(c);
        },
        None => {
            assert(live_rows + Seq::<Json>::empty() =~= live_rows);
        },
    }
    let state = CursorState { r: r_side, h: h_side };
    (all, state.encode())
}

} // verus!
