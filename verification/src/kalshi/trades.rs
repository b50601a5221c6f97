//! Kalshi trade history and batched books: the requests, and the outcome a
//! taker side names. Prices are normalized by the caller, as floats.

use vstd::prelude::*;
use vstd::string::*;

use crate::json::views;
use crate::kalshi::error::KalshiError;
use crate::kalshi::listing::{opt_part, query_part};
use crate::text::{ascii_lower_seq, decimal, eq_ignore_ascii_case, i64_to_string, owned, push_decimal, signed_decimal};

verus! {

/// The page size of a trade listing: the one asked for (200 by default),
/// between 1 and 1000.
pub open spec fn trades_limit_of(limit: Option<usize>) -> nat {
    let l: nat = match limit {
        Some(l) => l as nat,
        None => 200,
    };
    if l < 1 {
        1
    } else if l > 1000 {
        1000
    } else {
        l
    }
}

/// `/markets/trades?ticker=..&limit=..[&min_ts=..][&max_ts=..][&cursor=..]`.
pub open spec fn trades_path_of(
    asset: Seq<char>,
    limit: Option<usize>,
    start: Option<i64>,
    end: Option<i64>,
    cursor: Option<Seq<char>>,
) -> Seq<char> {
    "/markets/trades?ticker="@ + asset + "&limit="@ + decimal(trades_limit_of(limit)) + opt_part(
        "min_ts"@,
        match start {
            Some(t) => Some(signed_decimal(t as int)),
            None => None,
        },
    ) + opt_part(
        "max_ts"@,
        match end {
            Some(t) => Some(signed_decimal(t as int)),
            None => None,
        },
    ) + opt_part("cursor"@, cursor)
}

/// Appends an optional integer query part.
fn push_opt_int(out: &mut String, key: &str, v: Option<i64>)
    ensures
        final(out)@ == old(out)@ + opt_part(
            key@,
            match v {
                Some(t) => Some(signed_decimal(t as int)),
                None => None,
            },
        ),
{
    match v {
        Some(t) => {
            let s = i64_to_string(t);
            crate::kalshi::listing::push_query(out, key, s.as_str());
        },
        None => {
            assert(old(out)@ + Seq::<char>::empty() =~= old(out)@);
        },
    }
}

/// The request of a page of a market's trades.
pub fn trades_path(asset_id: &str, limit: Option<usize>, start_ts: Option<i64>, end_ts: Option<i64>, cursor: Option<&str>) -> (r: String)
    ensures
        r@ == trades_path_of(
            asset_id@,
            limit,
            start_ts,
            end_ts,
            match cursor {
                Some(c) => Some(c@),
                None => None,
            },
        ),
{
    let l = match limit {
        Some(l) => l,
        None => 200,
    };
    let l = if l < 1 {
        1
    } else if l > 1000 {
        1000
    } else {
        l
    };
    let mut out = owned("/markets/trades?ticker=");
    out.append(asset_id);
    out.append("&limit=");
    push_decimal(&mut out, l as u64);
    push_opt_int(&mut out, "min_ts", start_ts);
    push_opt_int(&mut out, "max_ts", end_ts);
    let ghost before = out@;
    match cursor {
        Some(c) => crate::kalshi::listing::push_query(&mut out, "cursor", c),
        None => {},
    }
    proof {
        let cs = match cursor {
            Some(c) => Some(c@),
            None => None,
        };
        assert(out@ =~= before + opt_part("cursor"@, cs));
        assert(out@ =~= trades_path_of(asset_id@, limit, start_ts, end_ts, cs));
    }
    out
}

/// The aggressor and outcome a taker side names: `yes` buys Yes, `no`
/// sells (buys No), in any ASCII case; other sides name neither.
pub open spec fn taker_of(side: Option<Seq<char>>) -> (Option<Seq<char>>, Option<Seq<char>>) {
    match side {
        Some(s) => if ascii_lower_seq(s) == ascii_lower_seq("yes"@) {
            (Some("buy"@), Some("Yes"@))
        } else if ascii_lower_seq(s) == ascii_lower_seq("no"@) {
            (Some("sell"@), Some("No"@))
        } else {
            (None, None)
        },
        None => (None, None),
    }
}

/// The aggressor and outcome of a trade's taker side.
pub fn taker_side_outcome(side: Option<&str>) -> (r: (Option<String>, Option<String>))
    ensures
        (crate::json::opt_view(r.0), crate::json::opt_view(r.1)) == taker_of(
            match side {
                Some(s) => Some(s@),
                None => None,
            },
        ),
{
    match side {
        Some(s) => if eq_ignore_ascii_case(s, "yes") {
            (Some(owned("buy")), Some(owned("Yes")))
        } else if eq_ignore_ascii_case(s, "no") {
            (Some(owned("sell")), Some(owned("No")))
        } else {
            (None, None)
        },
        None => (None, None),
    }
}

/// `tickers=a&tickers=b&..`.
pub open spec fn tickers_query(v: Seq<Seq<char>>) -> Seq<char>
    decreases v.len(),
{
    if v.len() == 0 {
        Seq::empty()
    } else if v.len() == 1 {
        "tickers="@ + v[0]
    } else {
        tickers_query(v.drop_last()) + "&tickers="@ + v.last()
    }
}

/// The most books one batched request may ask for.
pub const MAX_BATCH_BOOKS: usize = 100;

/// The request of a batch of books: none for no tickers, an error past the
/// limit of 100.
pub fn orderbooks_batch_path(asset_ids: &Vec<String>) -> (r: Result<Option<String>, KalshiError>)
    ensures
        asset_ids@.len() == 0 ==> r matches Ok(None),
        asset_ids@.len() > 100 ==> (r matches Err(KalshiError::InvalidOrder(m)) && m@
            == "fetch_orderbooks_batch: Kalshi limit is 100 asset_ids per request"@),
        0 < asset_ids@.len() <= 100 ==> (r matches Ok(Some(p)) && p@ == "/markets/orderbooks?"@
            + tickers_query(views(asset_ids@))),
{
    if asset_ids.len() == 0 {
        return Ok(None);
    }
    if asset_ids.len() > 100 {
        return Err(
            KalshiError::InvalidOrder(
                owned("fetch_orderbooks_batch: Kalshi limit is 100 asset_ids per request"),
            ),
        );
    }
    let mut out = owned("/markets/orderbooks?");
    let ghost base = out@;
    let mut i: usize = 0;
    while i < asset_ids.len()
        invariant
            i <= asset_ids.len(),
            out@ == base + tickers_query(views(asset_ids@.take(i as int))),
        decreases asset_ids.len() - i,
    {
        assert(views(asset_ids@.take(i + 1)).drop_last() =~= views(asset_ids@.take(i as int)));
        if i > 0 {
            out.append("&tickers=");
        } else {
            out.append("tickers=");
        }
        out.append(asset_ids[i].as_str());
        proof {
            let t = views(asset_ids@.take(i + 1));
            assert(t.last() == asset_ids@[i as int]@);
            if i == 0 {
                assert(t.len() == 1);
            }
        }
        i = i + 1;
    }
    assert(asset_ids@.take(asset_ids.len() as int) =~= asset_ids@);
    Ok(Some(out))
}

} // verus!
