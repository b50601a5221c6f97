//! Listing Opinion markets: offset cursors over fixed-size pages, the
//! status filter, and the markets of an event.

use vstd::prelude::*;
use vstd::string::*;

use crate::json::{opt_view, Json};
use crate::models::{requested_status, status_for_filter, FetchMarketsParams, MarketStatus, MarketStatusFilter};
use crate::opinion::fields::{id_text, id_text_of};
use crate::opinion::market::{is_opinion_market, parse_market, OpinionMarket, event_id_of};
use crate::text::{concat, decimal, owned, parse_u64, parse_u64_spec, push_decimal};

verus! {

/// The page size: the one asked for (20 by default), at most 20.
pub open spec fn opinion_limit_of(limit: Option<usize>) -> nat {
    let l: nat = match limit {
        Some(l) => l as nat,
        None => 20,
    };
    if l < 20 {
        l
    } else {
        20
    }
}

/// The offset a cursor names: its number when it is one, else 0.
pub open spec fn offset_of(cursor: Option<Seq<char>>) -> nat {
    match cursor {
        Some(c) => match parse_u64_spec(c) {
            Some(n) => if n <= usize::MAX {
                n as nat
            } else {
                0
            },
            None => 0,
        },
        None => 0,
    }
}

/// The `status` query value of a filter; none for `All`.
pub open spec fn opinion_status_word(f: Option<MarketStatusFilter>) -> Option<Seq<char>> {
    match f {
        None => Some("activated"@),
        Some(MarketStatusFilter::Active) => Some("activated"@),
        Some(MarketStatusFilter::Closed) => Some("resolved"@),
        Some(MarketStatusFilter::Resolved) => Some("resolved"@),
        Some(MarketStatusFilter::All) => None,
    }
}

/// The request of the page that holds `offset` (pages count from 1).
pub open spec fn markets_endpoint_of(offset: nat, limit: nat, f: Option<MarketStatusFilter>) -> Seq<char> {
    "/openapi/market?marketType=2&page="@ + decimal(offset / limit + 1) + "&limit="@ + decimal(limit)
        + match opinion_status_word(f) {
        Some(w) => "&status="@ + w,
        None => Seq::empty(),
    }
}

/// A page request: the endpoint, the offset it starts at and its size.
pub struct PageRequest {
    pub endpoint: String,
    pub offset: usize,
    pub limit: usize,
}

/// The listing can be asked: its page size is not zero, and the page number
/// fits.
pub open spec fn listable(p: FetchMarketsParams) -> bool {
    &&& opinion_limit_of(p.limit) > 0
    &&& offset_of(opt_view(p.cursor)) / opinion_limit_of(p.limit) + 1 <= usize::MAX
}

/// Decides the page a listing asks for.
pub fn markets_page_request(params: &FetchMarketsParams) -> (r: PageRequest)
    requires
        listable(*params),
    ensures
        r.limit == opinion_limit_of(params.limit),
        r.offset == offset_of(opt_view(params.cursor)),
        r.endpoint@ == markets_endpoint_of(r.offset as nat, r.limit as nat, params.status),
{
    let limit = match params.limit {
        Some(l) => if l < 20 {
            l
        } else {
            20
        },
        None => 20,
    };
    let offset: usize = match &params.cursor {
        Some(c) => match parse_u64(c.as_str()) {
            Some(n) => if n <= usize::MAX as u64 {
                n as usize
            } else {
                0
            },
            None => 0,
        },
        None => 0,
    };
    let page = offset / limit + 1;
    let mut endpoint = owned("/openapi/market?marketType=2&page=");
    push_decimal(&mut endpoint, page as u64);
    endpoint.append("&limit=");
    push_decimal(&mut endpoint, limit as u64);
    let ghost base = endpoint@;
    match params.status {
        Some(MarketStatusFilter::All) => {},
        Some(MarketStatusFilter::Closed) | Some(MarketStatusFilter::Resolved) => {
            endpoint.append("&status=resolved");
        },
        _ => {
            endpoint.append("&status=activated");
        },
    }
    proof {
        reveal_strlit("&status=resolved");
        reveal_strlit("&status=activated");
        reveal_strlit("&status=");
        reveal_strlit("resolved");
        reveal_strlit("activated");
        assert(endpoint@ =~= markets_endpoint_of(offset as nat, limit as nat, params.status));
    }
    PageRequest { endpoint, offset, limit }
}

/// The rows of a page that become markets under the filter.
pub open spec fn kept_markets(rows: Seq<Json>, want: Option<MarketStatus>) -> Seq<Json>
    decreases rows.len(),
{
    if rows.len() == 0 {
        Seq::empty()
    } else {
        let rest = kept_markets(rows.drop_last(), want);
        let row = rows.last();
        if crate::opinion::fields::then_id(crate::opinion::fields::pick4(
            row,
            "marketId"@,
            "market_id"@,
            "topic_id"@,
            "id"@,
        )) is Some && (want is None || want == Some(
            crate::opinion::market::opinion_market_status(row),
        )) {
            rest.push(row)
        } else {
            rest
        }
    }
}

/// Whether `ms` are the markets of `rows`, in order.
pub open spec fn opinion_markets_of(ms: Seq<OpinionMarket>, rows: Seq<Json>, chain_id: u64) -> bool {
    &&& ms.len() == rows.len()
    &&& forall|i: int| 0 <= i < ms.len() ==> is_opinion_market(#[trigger] ms[i], rows[i], chain_id)
}

/// Parses the rows of a page, keeping the markets of the wanted status.
pub fn collect_opinion_markets(rows: &Vec<Json>, want: Option<MarketStatus>, chain_id: u64) -> (r: Vec<OpinionMarket>)
    ensures
        opinion_markets_of(r@, kept_markets(rows@, want), chain_id),
{
    let mut r: Vec<OpinionMarket> = Vec::new();
    let mut i: usize = 0;
    while i < rows.len()
        invariant
            i <= rows.len(),
            opinion_markets_of(r@, kept_markets(rows@.take(i as int), want), chain_id),
        decreases rows.len() - i,
    {
        assert(rows@.take(i + 1).drop_last() =~= rows@.take(i as int));
        assert(rows@.take(i + 1).last() == rows@[i as int]);
        match parse_market(&rows[i], chain_id) {
            Some(m) => {
                let keep = match want {
                    None => true,
                    Some(w) => m.status == w,
                };
                if keep {
                    r.push(m);
                }
            },
            None => {},
        }
        i = i + 1;
    }
    assert(rows@.take(rows.len() as int) =~= rows@);
    r
}

/// The cursor after a page: the offset past it when the page came back
/// full (the count before filtering), else none.
pub fn next_offset_cursor(offset: usize, limit: usize, api_count: usize) -> (r: Option<String>)
    requires
        offset + api_count <= usize::MAX,
    ensures
        r is Some <==> api_count == limit,
        r matches Some(c) ==> c@ == decimal((offset + api_count) as nat),
{
    if api_count == limit {
        let mut c = String::new();
        push_decimal(&mut c, (offset + api_count) as u64);
        assert(c@ =~= decimal((offset + api_count) as nat));
        Some(c)
    } else {
        None
    }
}

/// What a page gives: its markets under the filter (active by default),
/// and the cursor of the next page.
pub fn markets_page_result(
    rows: &Vec<Json>,
    status: Option<MarketStatusFilter>,
    offset: usize,
    limit: usize,
    chain_id: u64,
) -> (r: (Vec<OpinionMarket>, Option<String>))
    requires
        offset + rows@.len() <= usize::MAX,
    ensures
        opinion_markets_of(
            r.0@,
            kept_markets(
                rows@,
                requested_status(
                    match status {
                        Some(f) => f,
                        None => MarketStatusFilter::Active,
                    },
                ),
            ),
            chain_id,
        ),
        r.1 is Some <==> rows@.len() == limit,
        r.1 matches Some(c) ==> c@ == decimal((offset + rows@.len()) as nat),
{
    let f = match status {
        Some(f) => f,
        None => MarketStatusFilter::Active,
    };
    let markets = collect_opinion_markets(rows, status_for_filter(f), chain_id);
    (markets, next_offset_cursor(offset, limit, rows.len()))
}

/// `/openapi/market/slug/{slug}`: the event lookup.
pub fn event_endpoint(slug: &str) -> (r: String)
    ensures
        r@ == "/openapi/market/slug/"@ + slug@,
{
    concat("/openapi/market/slug/", slug)
}

/// The child markets of an event object, when it has any.
pub open spec fn event_children(data: Json) -> Option<Seq<Json>> {
    match data.field("childMarkets"@) {
        Some(Json::Array(a)) => if a@.len() > 0 {
            Some(a@)
        } else {
            None
        },
        _ => None,
    }
}

/// The id of an event object, or the empty text.
pub open spec fn parent_id_of(data: Json) -> Seq<char> {
    match data.field("marketId"@) {
        Some(v) => match id_text_of(v) {
            Some(t) => t,
            None => Seq::empty(),
        },
        None => Seq::empty(),
    }
}

/// Whether `m` is the market of child `c` of an event with id `parent`: the
/// child's own market, with the group and event of the parent where the
/// child names none.
pub open spec fn is_child_market(m: OpinionMarket, c: Json, parent: Seq<char>, chain_id: u64) -> bool {
    exists|own: OpinionMarket|
        #![trigger is_opinion_market(own, c, chain_id)]
        is_opinion_market(own, c, chain_id) && m == OpinionMarket {
            group_id: m.group_id,
            event_id: m.event_id,
            ..own
        } && opt_view(m.group_id) == (match opt_view(own.group_id) {
            Some(g) => Some(g),
            None => Some(parent),
        }) && opt_view(m.event_id) == (match opt_view(own.event_id) {
            Some(e) => Some(e),
            None => event_id_of(Some(parent)),
        })
}

/// The markets an event object gives under the filter: each child market
/// (with the parent's group and event where the child has none), or, for an
/// event without children, the parent market itself.
pub fn event_markets(data: &Json, status: Option<MarketStatusFilter>, chain_id: u64) -> (r: Vec<OpinionMarket>)
    ensures
        ({
            let want = requested_status(
                match status {
                    Some(f) => f,
                    None => MarketStatusFilter::Active,
                },
            );
            match event_children(*data) {
                Some(cs) => {
                    let kept = kept_markets(cs, want);
                    &&& r@.len() == kept.len()
                    &&& forall|i: int|
                        0 <= i < kept.len() ==> is_child_market(
                            #[trigger] r@[i],
                            kept[i],
                            parent_id_of(*data),
                            chain_id,
                        )
                },
                None => opinion_markets_of(r@, kept_markets(seq![*data], want), chain_id),
            }
        }),
{
    proof {
        reveal_strlit("");
    }
    let f = match status {
        Some(f) => f,
        None => MarketStatusFilter::Active,
    };
    let want = status_for_filter(f);
    let children: Option<&Vec<Json>> = match data.get("childMarkets") {
        Some(Json::Array(a)) => if a.len() > 0 {
            Some(a)
        } else {
            None
        },
        _ => None,
    };
    match children {
        None => {
            let mut one: Vec<Json> = Vec::new();
            let mut r: Vec<OpinionMarket> = Vec::new();
            match parse_market(data, chain_id) {
                Some(m) => {
                    let keep = match want {
                        None => true,
                        Some(w) => m.status == w,
                    };
                    if keep {
                        r.push(m);
                    }
                },
                None => {},
            }
            proof {
                let s1 = seq![*data];
                assert(s1.drop_last() =~= Seq::<Json>::empty());
                assert(s1.last() == *data);
                assert(kept_markets(Seq::<Json>::empty(), want) =~= Seq::<Json>::empty());
                assert(event_children(*data) is None);
                assert(opinion_markets_of(r@, kept_markets(s1, want), chain_id));
            }
            r
        },
        Some(cs) => {
            let parent = match data.get("marketId") {
                Some(v) => match id_text(v) {
                    Some(t) => t,
                    None => String::new(),
                },
                None => String::new(),
            };
            assert(parent@ == parent_id_of(*data));
            let mut r: Vec<OpinionMarket> = Vec::new();
            let mut i: usize = 0;
            while i < cs.len()
                invariant
                    i <= cs.len(),
                    event_children(*data) == Some(cs@),
                    parent@ == parent_id_of(*data),
                    r@.len() == kept_markets(cs@.take(i as int), want).len(),
                    forall|k: int|
                        0 <= k < r@.len() ==> is_child_market(
                            #[trigger] r@[k],
                            kept_markets(cs@.take(i as int), want)[k],
                            parent@,
                            chain_id,
                        ),
                decreases cs.len() - i,
            {
                assert(cs@.take(i + 1).drop_last() =~= cs@.take(i as int));
                assert(cs@.take(i + 1).last() == cs@[i as int]);
                match parse_market(&cs[i], chain_id) {
                    Some(mut m) => {
                        let keep = match want {
                            None => true,
                            Some(w) => m.status == w,
                        };
                        if keep {
                            let ghost own = m;
                            if m.group_id.is_none() {
                                m.group_id = Some(parent.clone());
                            }
                            if m.event_id.is_none() {
                                m.event_id = if parent.unicode_len() > 0 {
                                    Some(concat("opinion:", parent.as_str()))
                                } else {
                                    None
                                };
                            }
                            proof {
                                assert(m == OpinionMarket {
                                    group_id: m.group_id,
                                    event_id: m.event_id,
                                    ..own
                                });
                                assert(is_child_market(m, cs@[i as int], parent@, chain_id));
                            }
                            let ghost before = r@;
                            let ghost prev = kept_markets(cs@.take(i as int), want);
                            r.push(m);
                            proof {
                                assert(kept_markets(cs@.take(i + 1), want) == prev.push(cs@[i as int]));
                                assert forall|k: int| 0 <= k < r@.len() implies is_child_market(
                                    #[trigger] r@[k],
                                    prev.push(cs@[i as int])[k],
                                    parent@,
                                    chain_id,
                                ) by {
                                    if k < before.len() {
                                        assert(r@[k] == before[k]);
                                    }
                                }
                            }
                        }
                    },
                    None => {},
                }
                i = i + 1;
            }
            assert(cs@.take(cs.len() as int) =~= cs@);
            r
        },
    }
}

} // verus!
