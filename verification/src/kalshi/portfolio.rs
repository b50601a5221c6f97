//! The Kalshi portfolio: positions as the venue reports them, the requests
//! for positions and fills, and the body of a single order placement.

use vstd::prelude::*;
use vstd::string::*;

use crate::errors::{ExchangeError, OpenPxError};
use crate::json::{members_view, opt_view, str_field, Json, Scalar};
use crate::kalshi::batch::{tif_text, unified_to_kalshi_tif, v2_side, v2_side_of};
use crate::kalshi::catalog::text_or_empty;
use crate::kalshi::listing::{opt_part, push_query};
use crate::kalshi::market::{amount_at, amount_field, price_at, price_field};
use crate::models::{price_view, OrderOutcome, OrderSide, OrderType, Price};
use crate::text::{decimal, owned, push_decimal};

verus! {

/// A position as Kalshi reports it: the signed contract count (positive
/// holds YES, negative NO) and the dollars traded and at risk.
#[derive(Debug, Clone)]
pub struct KalshiPosition {
    pub market_ticker: String,
    pub position: Option<String>,
    pub total_traded: Option<Price>,
    pub market_exposure: Option<Price>,
}

/// Whether `p` is the position the Kalshi position object `j` describes.
pub open spec fn is_kalshi_position(p: KalshiPosition, j: Json) -> bool {
    &&& p.market_ticker@ == text_or_empty(str_field(j, "ticker"@))
    &&& opt_view(p.position) == amount_field(j, "position_fp"@, "position"@)
    &&& price_view(p.total_traded) == price_field(j, "total_traded_dollars"@, "total_traded"@)
    &&& price_view(p.market_exposure) == price_field(j, "market_exposure_dollars"@, "market_exposure"@)
}

/// Reads a Kalshi position object: the count from its fixed-point text,
/// else the legacy integer; the money from its dollar text, else the
/// legacy cents.
pub fn parse_position(data: &Json) -> (r: KalshiPosition)
    ensures
        is_kalshi_position(r, *data),
{
    proof {
        reveal_strlit("");
        assert(""@ =~= Seq::<char>::empty());
    }
    let market_ticker = match data.get_str("ticker") {
        Some(t) => owned(t),
        None => owned(""),
    };
    KalshiPosition {
        market_ticker,
        position: amount_at(data, "position_fp", "position"),
        total_traded: price_at(data, "total_traded_dollars", "total_traded"),
        market_exposure: price_at(data, "market_exposure_dollars", "market_exposure"),
    }
}

/// `/portfolio/positions?count_filter=position[&ticker=..]`.
pub open spec fn positions_path_of(ticker: Option<Seq<char>>) -> Seq<char> {
    "/portfolio/positions?count_filter=position"@ + opt_part("ticker"@, ticker)
}

/// The request for the positions held, in one market or in all.
pub fn positions_path(ticker: Option<&str>) -> (r: String)
    ensures
        r@ == positions_path_of(
            match ticker {
                Some(t) => Some(t@),
                None => None,
            },
        ),
{
    proof {
        reveal_strlit("/portfolio/positions?count_filter=position");
    }
    let mut out = owned("/portfolio/positions?count_filter=position");
    match ticker {
        Some(t) => push_query(&mut out, "ticker", t),
        None => {},
    }
    proof {
        let ts = match ticker {
            Some(t) => Some(t@),
            None => None,
        };
        assert(out@ =~= positions_path_of(ts));
    }
    out
}

/// The page size of a fill listing: the one asked for (100 by default),
/// between 1 and 200.
pub open spec fn fills_limit_of(limit: Option<usize>) -> nat {
    let l: nat = match limit {
        Some(l) => l as nat,
        None => 100,
    };
    if l < 1 {
        1
    } else if l > 200 {
        200
    } else {
        l
    }
}

/// `/portfolio/fills?limit=..[&ticker=..]`.
pub open spec fn fills_path_of(ticker: Option<Seq<char>>, limit: Option<usize>) -> Seq<char> {
    "/portfolio/fills?limit="@ + decimal(fills_limit_of(limit)) + opt_part("ticker"@, ticker)
}

/// The request for the latest fills, in one market or in all.
pub fn fills_path(ticker: Option<&str>, limit: Option<usize>) -> (r: String)
    ensures
        r@ == fills_path_of(
            match ticker {
                Some(t) => Some(t@),
                None => None,
            },
            limit,
        ),
{
    proof {
        reveal_strlit("/portfolio/fills?limit=");
    }
    let l = match limit {
        Some(l) => l,
        None => 100,
    };
    let l = if l < 1 {
        1
    } else if l > 200 {
        200
    } else {
        l
    };
    let mut out = owned("/portfolio/fills?limit=");
    push_decimal(&mut out, l as u64);
    let ghost before = out@;
    match ticker {
        Some(t) => push_query(&mut out, "ticker", t),
        None => {},
    }
    proof {
        let ts = match ticker {
            Some(t) => Some(t@),
            None => None,
        };
        assert(out@ =~= before + opt_part("ticker"@, ts));
    }
    out
}

/// Whether `c` is a lower-case hexadecimal digit.
pub open spec fn is_lower_hex(c: char) -> bool {
    ('0' <= c <= '9') || ('a' <= c <= 'f')
}

/// Whether `s` is a random (version 4) UUID in its hyphenated lower-case
/// form: 36 characters, hyphens at 8, 13, 18 and 23, lower-case hex
/// digits elsewhere, version digit `4` and a variant digit of `8`, `9`,
/// `a` or `b`.
pub open spec fn is_v4_uuid_text(s: Seq<char>) -> bool {
    &&& s.len() == 36
    &&& forall|i: int|
        0 <= i < 36 ==> if i == 8 || i == 13 || i == 18 || i == 23 {
            s[i] == '-'
        } else {
            is_lower_hex(#[trigger] s[i])
        }
    &&& s[14] == '4'
    &&& (s[19] == '8' || s[19] == '9' || s[19] == 'a' || s[19] == 'b')
}

/// `uuid::Uuid::new_v4().to_string()`: a fresh random UUID. Its value is
/// chance; its text is always the hyphenated lower-case form of a
/// version 4 UUID, as `uuid` formats one.
#[verifier::external_body]
fn new_client_order_id() -> (r: String)
    ensures
        is_v4_uuid_text(r@),
{
    uuid::Uuid::new_v4().to_string()
}

/// The members of the body placing one order on Kalshi's single YES-frame
/// book, in the order written: the intent's book side, `count` contracts
/// at the YES-frame `price` (both decimal text), with client order id
/// `client_id` and self-trade prevention `taker_at_cross`.
pub open spec fn single_order_members(
    ticker: Seq<char>,
    client_id: Seq<char>,
    outcome: OrderOutcome,
    side: OrderSide,
    count: Seq<char>,
    price: Seq<char>,
    order_type: OrderType,
) -> Seq<(Seq<char>, Scalar)> {
    seq![
        ("ticker"@, Scalar::Text(ticker)),
        ("client_order_id"@, Scalar::Text(client_id)),
        ("side"@, Scalar::Text(v2_side_of(outcome, side).0)),
        ("count"@, Scalar::Text(count)),
        ("price"@, Scalar::Text(price)),
        ("time_in_force"@, Scalar::Text(tif_text(order_type))),
        ("self_trade_prevention_type"@, Scalar::Text("taker_at_cross"@)),
    ]
}

/// The body placing one order, with a fresh client order id. `price` is
/// the YES-frame price text (mirrored to `1 - p` by the caller where
/// `v2_side` says so).
pub fn single_order_body(
    ticker: &str,
    outcome: OrderOutcome,
    side: OrderSide,
    count: &str,
    price: &str,
    order_type: OrderType,
) -> (r: Json)
    ensures
        r matches Json::Object(m) && m@.len() == 7 && (m@[1].1 matches Json::Str(id) && is_v4_uuid_text(id@)
            && members_view(m@) == single_order_members(
            ticker@,
            id@,
            outcome,
            side,
            count@,
            price@,
            order_type,
        )),
{
    let id = new_client_order_id();
    let ghost idv = id@;
    let (word, _mirrored) = v2_side(outcome, side);
    let tif = match unified_to_kalshi_tif(order_type) {
        Some(w) => w,
        None => "good_till_canceled",
    };
    let mut m: Vec<(String, Json)> = Vec::new();
    m.push((owned("ticker"), Json::Str(owned(ticker))));
    m.push((owned("client_order_id"), Json::Str(id)));
    m.push((owned("side"), Json::Str(owned(word))));
    m.push((owned("count"), Json::Str(owned(count))));
    m.push((owned("price"), Json::Str(owned(price))));
    m.push((owned("time_in_force"), Json::Str(owned(tif))));
    m.push((owned("self_trade_prevention_type"), Json::Str(owned("taker_at_cross"))));
    proof {
        reveal_strlit("ticker");
        reveal_strlit("client_order_id");
        reveal_strlit("side");
        reveal_strlit("count");
        reveal_strlit("price");
        reveal_strlit("time_in_force");
        reveal_strlit("self_trade_prevention_type");
        reveal_strlit("taker_at_cross");
        assert(members_view(m@) =~= single_order_members(
            ticker@,
            idv,
            outcome,
            side,
            count@,
            price@,
            order_type,
        ));
    }
    Json::Object(m)
}

/// The body of a single order request, or why it is refused: a price that
/// does not lie strictly between 0 and 1 (`price_in_range` false) is
/// refused before any request; otherwise the body is that of
/// `single_order_body`.
pub fn create_order_body(
    price_in_range: bool,
    ticker: &str,
    outcome: OrderOutcome,
    side: OrderSide,
    count: &str,
    price: &str,
    order_type: OrderType,
) -> (r: Result<Json, OpenPxError>)
    ensures
        r is Err <==> !price_in_range,
        !price_in_range ==> (r matches Err(OpenPxError::Exchange(ExchangeError::InvalidOrder(msg))) && msg@
            == "price must be in (0, 1)"@),
        price_in_range ==> (r matches Ok(Json::Object(m)) && m@.len() == 7 && (m@[1].1 matches Json::Str(id)
            && is_v4_uuid_text(id@) && members_view(m@) == single_order_members(
            ticker@,
            id@,
            outcome,
            side,
            count@,
            price@,
            order_type,
        ))),
{
    if !price_in_range {
        return Err(OpenPxError::Exchange(ExchangeError::InvalidOrder(owned("price must be in (0, 1)"))));
    }
    Ok(single_order_body(ticker, outcome, side, count, price, order_type))
}

/// The cents of a balance reply: the integer `balance`, and the integer
/// `portfolio_value` when given (absent or `null` reads as none); `None`
/// when the reply is not an object or either member does not read.
pub open spec fn balance_fields(j: Json) -> Option<(i64, Option<i64>)> {
    if !(j is Object) {
        None
    } else {
        match j.field("balance"@) {
            Some(b) => match b.i64_of() {
                Some(c) => match j.field("portfolio_value"@) {
                    None => Some((c, None)),
                    Some(Json::Null) => Some((c, None)),
                    Some(p) => match p.i64_of() {
                        Some(v) => Some((c, Some(v))),
                        None => None,
                    },
                },
                None => None,
            },
            None => None,
        }
    }
}

/// Reads a balance reply: the balance and portfolio value in cents.
pub fn balance_of(body: &Json) -> (r: Option<(i64, Option<i64>)>)
    ensures
        r == balance_fields(*body),
{
    match body {
        Json::Object(_) => {},
        _ => return None,
    }
    let cents = match body.get("balance") {
        Some(b) => match b.as_i64() {
            Some(c) => c,
            None => return None,
        },
        None => return None,
    };
    match body.get("portfolio_value") {
        None => Some((cents, None)),
        Some(Json::Null) => Some((cents, None)),
        Some(p) => match p.as_i64() {
            Some(v) => Some((cents, Some(v))),
            None => None,
        },
    }
}

} // verus!
