//! Opinion price history: the request, and the points of a reply in time
//! order (a stable sort by timestamp).

use vstd::prelude::*;
use vstd::string::*;

use crate::json::{first_some, opt_view, Json};
use crate::opinion::api::{ApiEnvelope, OpinionError};
use crate::opinion::fields::{amount_text, amount_text_of, then_amount};
use crate::text::{decimal, i64_to_string, owned, push_decimal, signed_decimal};
use crate::time::{secs_to_millis, spec_secs_in_range};

verus! {

/// `/openapi/token/price-history?token_id=..&interval=..[&start_at=..][&end_at=..]`.
pub open spec fn history_endpoint_of(
    token: Seq<char>,
    interval: Seq<char>,
    start: Option<i64>,
    end: Option<i64>,
) -> Seq<char> {
    "/openapi/token/price-history?token_id="@ + token + "&interval="@ + interval
        + match start {
        Some(s) => "&start_at="@ + signed_decimal(s as int),
        None => Seq::empty(),
    } + match end {
        Some(e) => "&end_at="@ + signed_decimal(e as int),
        None => Seq::empty(),
    }
}

/// The request of a token's price history at granularity `interval` (its
/// wire word).
pub fn history_endpoint(token_id: &str, interval: &str, start_at: Option<i64>, end_at: Option<i64>) -> (r: String)
    ensures
        r@ == history_endpoint_of(token_id@, interval@, start_at, end_at),
{
    let mut out = owned("/openapi/token/price-history?token_id=");
    out.append(token_id);
    out.append("&interval=");
    out.append(interval);
    let ghost base = out@;
    match start_at {
        Some(s) => {
            out.append("&start_at=");
            let t = i64_to_string(s);
            out.append(t.as_str());
        },
        None => {},
    }
    let ghost mid = out@;
    match end_at {
        Some(e) => {
            out.append("&end_at=");
            let t = i64_to_string(e);
            out.append(t.as_str());
        },
        None => {},
    }
    proof {
        assert(mid =~= base + match start_at {
            Some(s) => "&start_at="@ + signed_decimal(s as int),
            None => Seq::empty(),
        });
        assert(out@ =~= history_endpoint_of(token_id@, interval@, start_at, end_at));
    }
    out
}

/// A point of a price history: when (milliseconds), the price (number
/// text), and which item of the reply it came from.
#[derive(Debug, Clone)]
pub struct PricePoint {
    pub timestamp_ms: i64,
    pub price: String,
    pub source: usize,
}

/// A point as plain values.
pub open spec fn point_view(p: PricePoint) -> (i64, Seq<char>, int) {
    (p.timestamp_ms, p.price@, p.source as int)
}

/// The point item `i` of a reply gives: an integer `timestamp` (or `t`) in
/// seconds within chrono's range and a price (`price` or `p`).
pub open spec fn point_of(item: Json, i: int) -> Option<(i64, Seq<char>, int)> {
    let t = match first_some(item.field("timestamp"@), item.field("t"@)) {
        Some(v) => v.i64_of(),
        None => None,
    };
    let p = then_amount(first_some(item.field("price"@), item.field("p"@)));
    match (t, p) {
        (Some(ts), Some(price)) => if spec_secs_in_range(ts) {
            Some(((ts * 1000) as i64, price, i))
        } else {
            None
        },
        _ => None,
    }
}

/// The points of the first `n` items, in reply order.
pub open spec fn points_upto(items: Seq<Json>, n: int) -> Seq<(i64, Seq<char>, int)>
    decreases n,
{
    if n <= 0 || n > items.len() {
        Seq::empty()
    } else {
        let rest = points_upto(items, n - 1);
        match point_of(items[n - 1], n - 1) {
            Some(p) => rest.push(p),
            None => rest,
        }
    }
}

/// `a` comes before `b`: earlier, or as early and earlier in the reply.
pub open spec fn before(a: (i64, Seq<char>, int), b: (i64, Seq<char>, int)) -> bool {
    a.0 < b.0 || (a.0 == b.0 && a.2 < b.2)
}

/// The points are in time order, ties in reply order.
pub open spec fn in_order(s: Seq<(i64, Seq<char>, int)>) -> bool {
    forall|i: int, j: int| 0 <= i < j < s.len() ==> before(#[trigger] s[i], #[trigger] s[j])
}

/// The points as plain values.
pub open spec fn points_view(v: Seq<PricePoint>) -> Seq<(i64, Seq<char>, int)> {
    v.map_values(|p: PricePoint| point_view(p))
}

/// The items a reply's history is made of: its `list`, else its `data`
/// when that is an array.
pub open spec fn history_items(data: Option<Json>, list: Option<Seq<Json>>) -> Seq<Json> {
    match list {
        Some(l) => l,
        None => match data {
            Some(Json::Array(a)) => a@,
            _ => Seq::empty(),
        },
    }
}

proof fn lemma_insert_contains<T>(s: Seq<T>, k: int, v: T, x: T)
    requires
        0 <= k <= s.len(),
    ensures
        s.insert(k, v).contains(x) <==> (s.contains(x) || x == v),
{
    if s.contains(x) {
        let j = choose|j: int| 0 <= j < s.len() && s[j] == x;
        if j < k {
            assert(s.insert(k, v)[j] == x);
        } else {
            assert(s.insert(k, v)[j + 1] == x);
        }
    }
    if x == v {
        assert(s.insert(k, v)[k] == x);
    }
    if s.insert(k, v).contains(x) {
        let j = choose|j: int| 0 <= j < s.insert(k, v).len() && s.insert(k, v)[j] == x;
        if j < k {
            assert(s[j] == x);
        } else if j > k {
            assert(s[j - 1] == x);
        }
    }
}

/// Inserts `p` after every point not later than it; `p` comes from a later
/// item than all points so far.
fn insert_in_order(out: &mut Vec<PricePoint>, p: PricePoint)
    requires
        in_order(points_view(old(out)@)),
        forall|k: int| 0 <= k < old(out)@.len() ==> (#[trigger] old(out)@[k]).source < p.source,
    ensures
        in_order(points_view(final(out)@)),
        points_view(final(out)@).len() == points_view(old(out)@).len() + 1,
        forall|x: (i64, Seq<char>, int)|
            points_view(final(out)@).contains(x) <==> (points_view(old(out)@).contains(x) || x
                == point_view(p)),
        forall|k: int| 0 <= k < final(out)@.len() ==> (#[trigger] final(out)@[k]).source <= p.source,
{
    let mut k: usize = 0;
    while k < out.len() && out[k].timestamp_ms <= p.timestamp_ms
        invariant
            k <= out@.len(),
            out@ == old(out)@,
            forall|j: int| 0 <= j < k ==> (#[trigger] out@[j]).timestamp_ms <= p.timestamp_ms,
        decreases out.len() - k,
    {
        k = k + 1;
    }
    let ghost pv = point_view(p);
    let ghost old_v = points_view(out@);
    out.insert(k, p);
    proof {
        assert(points_view(out@) =~= old_v.insert(k as int, pv));
        let nv = points_view(out@);
        assert forall|i: int, j: int| 0 <= i < j < nv.len() implies before(#[trigger] nv[i], #[trigger] nv[j]) by {
            if j < k {
                assert(nv[i] == old_v[i] && nv[j] == old_v[j]);
            } else if i > k {
                assert(nv[i] == old_v[i - 1] && nv[j] == old_v[j - 1]);
            } else if i == k {
                assert(nv[i] == pv);
                assert(nv[j] == old_v[j - 1]);
                if k < old_v.len() {
                    assert(old(out)@[k as int].timestamp_ms > pv.0);
                    if j - 1 > k {
                        assert(before(old_v[k as int], old_v[j - 1]));
                    }
                }
            } else if j == k {
                assert(nv[j] == pv);
                assert(nv[i] == old_v[i]);
                assert(old(out)@[i].timestamp_ms <= pv.0);
                assert(old(out)@[i].source < pv.2);
            } else {
                assert(nv[i] == old_v[i] && nv[j] == old_v[j - 1]);
            }
        }
        assert forall|x: (i64, Seq<char>, int)| nv.contains(x) <==> (old_v.contains(x) || x == pv) by {
            lemma_insert_contains(old_v, k as int, pv, x);
        }
        assert forall|j: int| 0 <= j < out@.len() implies (#[trigger] out@[j]).source <= pv.2 by {
            if j < k {
                assert(out@[j] == old(out)@[j]);
            } else if j > k {
                assert(out@[j] == old(out)@[j - 1]);
            }
        }
    }
}

/// Reads the point of one item.
fn read_point(item: &Json, i: usize) -> (r: Option<PricePoint>)
    ensures
        match point_of(*item, i as int) {
            Some(x) => r matches Some(p) && point_view(p) == x,
            None => r is None,
        },
{
    let t = match item.get_either("timestamp", "t") {
        Some(v) => v.as_i64(),
        None => None,
    };
    let p = match item.get_either("price", "p") {
        Some(v) => amount_text(v),
        None => None,
    };
    match (t, p) {
        (Some(ts), Some(price)) => match secs_to_millis(ts) {
            Some(ms) => Some(PricePoint { timestamp_ms: ms, price, source: i }),
            None => None,
        },
        _ => None,
    }
}

/// The points of a history in time order, ties in reply order: exactly the
/// points its items give.
pub fn history_points(items: &Vec<Json>) -> (r: Vec<PricePoint>)
    ensures
        in_order(points_view(r@)),
        points_view(r@).len() == points_upto(items@, items@.len() as int).len(),
        forall|x: (i64, Seq<char>, int)|
            points_view(r@).contains(x) <==> points_upto(items@, items@.len() as int).contains(x),
{
    let mut out: Vec<PricePoint> = Vec::new();
    let mut i: usize = 0;
    proof {
        assert(points_view(out@) =~= Seq::<(i64, Seq<char>, int)>::empty());
    }
    while i < items.len()
        invariant
            i <= items@.len(),
            in_order(points_view(out@)),
            points_view(out@).len() == points_upto(items@, i as int).len(),
            forall|x: (i64, Seq<char>, int)|
                points_view(out@).contains(x) <==> points_upto(items@, i as int).contains(x),
            forall|k: int| 0 <= k < out@.len() ==> (#[trigger] out@[k]).source < i,
        decreases items.len() - i,
    {
        match read_point(&items[i], i) {
            Some(p) => {
                let ghost pv = point_view(p);
                insert_in_order(&mut out, p);
                proof {
                    assert(points_upto(items@, i + 1) == points_upto(items@, i as int).push(pv));
                    assert forall|x: (i64, Seq<char>, int)| points_view(out@).contains(x)
                        <==> points_upto(items@, i + 1).contains(x) by {
                        crate::crypto::lemma_push_contains_pub(points_upto(items@, i as int), pv, x);
                    }
                }
            },
            None => {
                assert(points_upto(items@, i + 1) == points_upto(items@, i as int));
            },
        }
        i = i + 1;
    }
    out
}

/// The points of a price-history reply; a non-zero code is an error.
pub fn price_history(env: &ApiEnvelope) -> (r: Result<Vec<PricePoint>, OpinionError>)
    ensures
        env.code != 0 ==> (r matches Err(OpinionError::Api(m)) && m@ == (match env.msg {
            Some(t) => t@,
            None => "fetch price history failed"@,
        })),
        env.code == 0 ==> (r matches Ok(v) && {
            let items = history_items(
                match env.data {
                    Some(d) => Some(*d),
                    None => None,
                },
                match env.list {
                    Some(l) => Some(l@),
                    None => None,
                },
            );
            &&& in_order(points_view(v@))
            &&& points_view(v@).len() == points_upto(items, items.len() as int).len()
            &&& forall|x: (i64, Seq<char>, int)|
                points_view(v@).contains(x) <==> points_upto(items, items.len() as int).contains(x)
        }),
{
    match env.check("fetch price history failed") {
        Err(e) => return Err(e),
        Ok(()) => {},
    }
    match env.list {
        Some(l) => Ok(history_points(l)),
        None => match env.data {
            Some(Json::Array(a)) => Ok(history_points(a)),
            _ => {
                let empty: Vec<Json> = Vec::new();
                let r = history_points(&empty);
                assert(empty@ =~= Seq::<Json>::empty());
                Ok(r)
            },
        },
    }
}

} // verus!
