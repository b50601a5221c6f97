//! Placing and cancelling Opinion orders: which requests are accepted, the
//! request bodies, and what the replies report.

use vstd::prelude::*;
use vstd::string::*;

use crate::errors::{ExchangeError, OpenPxError};
use crate::json::{members_view, opt_view, str_field, Json, Scalar};
use crate::models::{Order, OrderSide, OrderStatus};
use crate::opinion::api::ApiEnvelope;
use crate::opinion::config::OpinionConfig;
use crate::text::{concat, owned, parse_i64, parse_i64_spec, str_eq};

verus! {

/// The error every authenticated request gives without an API key.
pub open spec fn is_auth_error(e: OpenPxError) -> bool {
    e matches OpenPxError::Exchange(ExchangeError::Authentication(m)) && m@ == "authentication required"@
}

/// The error for requests made without an API key.
fn auth_error() -> (r: OpenPxError)
    ensures
        is_auth_error(r),
{
    proof {
        reveal_strlit("authentication required");
    }
    OpenPxError::Exchange(ExchangeError::Authentication(owned("authentication required")))
}

/// Opinion's order type for a unified time-in-force word (`gtc` when none
/// is given): `gtc` rests as `LIMIT`, `ioc` and `fok` go as `MARKET_ORDER`,
/// and any other word is refused.
pub open spec fn opinion_order_type(t: Option<Seq<char>>) -> Option<Seq<char>> {
    let w = match t {
        Some(w) => w,
        None => "gtc"@,
    };
    if w == "gtc"@ {
        Some("LIMIT"@)
    } else if w == "ioc"@ || w == "fok"@ {
        Some("MARKET_ORDER"@)
    } else {
        None
    }
}

/// The message refusing an order type word.
pub open spec fn bad_order_type_message(w: Seq<char>) -> Seq<char> {
    "invalid order_type '"@ + w + "' (allowed: gtc, ioc, fok)"@
}

/// Maps a time-in-force word to Opinion's order type.
pub fn order_type_word(t: Option<&str>) -> (r: Result<&'static str, OpenPxError>)
    ensures
        match opinion_order_type(
            match t {
                Some(w) => Some(w@),
                None => None,
            },
        ) {
            Some(k) => r matches Ok(s) && s@ == k,
            None => t matches Some(w) && r matches Err(OpenPxError::Exchange(ExchangeError::InvalidOrder(m)))
                && m@ == bad_order_type_message(w@),
        },
{
    proof {
        reveal_strlit("gtc");
        reveal_strlit("ioc");
        reveal_strlit("fok");
        reveal_strlit("LIMIT");
        reveal_strlit("MARKET_ORDER");
    }
    let w = match t {
        Some(w) => w,
        None => "gtc",
    };
    if str_eq(w, "gtc") {
        Ok("LIMIT")
    } else if str_eq(w, "ioc") || str_eq(w, "fok") {
        Ok("MARKET_ORDER")
    } else {
        let mut m = concat("invalid order_type '", w);
        m.append("' (allowed: gtc, ioc, fok)");
        Err(OpenPxError::Exchange(ExchangeError::InvalidOrder(m)))
    }
}

/// The side code Opinion takes: 1 buys, 2 sells.
pub open spec fn side_code(s: OrderSide) -> int {
    match s {
        OrderSide::Buy => 1,
        OrderSide::Sell => 2,
    }
}

/// The market id as an integer: its decimal value, or 0 when it is not one.
pub open spec fn market_number(id: Seq<char>) -> int {
    match parse_i64_spec(id) {
        Some(n) => n as int,
        None => 0,
    }
}

/// The members of the body placing an order, in the order written.
pub open spec fn order_members(
    market_id: Seq<char>,
    token_id: Seq<char>,
    side: OrderSide,
    price: Seq<char>,
    size: Seq<char>,
    order_type: Seq<char>,
    chain_id: u64,
) -> Seq<(Seq<char>, Scalar)> {
    seq![
        ("market_id"@, Scalar::Int(market_number(market_id))),
        ("token_id"@, Scalar::Text(token_id)),
        ("side"@, Scalar::Int(side_code(side))),
        ("price"@, Scalar::Text(price)),
        ("size"@, Scalar::Text(size)),
        ("order_type"@, Scalar::Text(order_type)),
        ("chain_id"@, Scalar::Int(chain_id as int)),
    ]
}

/// The body placing an order of `size` at `price` (both decimal text) for
/// the outcome token `token_id` of market `market_id`.
pub fn order_body(
    market_id: &str,
    token_id: &str,
    side: OrderSide,
    price: &str,
    size: &str,
    order_type: &str,
    chain_id: u64,
) -> (r: Json)
    ensures
        r matches Json::Object(m) && members_view(m@) == order_members(
            market_id@,
            token_id@,
            side,
            price@,
            size@,
            order_type@,
            chain_id,
        ),
{
    let id_value = match parse_i64(market_id) {
        Some(n) => crate::json::int_json(n),
        None => Json::UInt(0),
    };
    let code: u64 = match side {
        OrderSide::Buy => 1,
        OrderSide::Sell => 2,
    };
    let mut m: Vec<(String, Json)> = Vec::new();
    m.push((owned("market_id"), id_value));
    m.push((owned("token_id"), Json::Str(owned(token_id))));
    m.push((owned("side"), Json::UInt(code)));
    m.push((owned("price"), Json::Str(owned(price))));
    m.push((owned("size"), Json::Str(owned(size))));
    m.push((owned("order_type"), Json::Str(owned(order_type))));
    m.push((owned("chain_id"), Json::UInt(chain_id)));
    proof {
        reveal_strlit("market_id");
        reveal_strlit("token_id");
        reveal_strlit("side");
        reveal_strlit("price");
        reveal_strlit("size");
        reveal_strlit("order_type");
        reveal_strlit("chain_id");
    }
    assert(members_view(m@) =~= order_members(
        market_id@,
        token_id@,
        side,
        price@,
        size@,
        order_type@,
        chain_id,
    ));
    Json::Object(m)
}

/// What an order request comes to: the refusal that comes first (no API
/// key, no `token_id`, a price outside (0, 1), an unknown order type), or
/// the token and Opinion order type it is placed with.
pub open spec fn order_request_of(
    authenticated: bool,
    token_id: Option<Seq<char>>,
    price_in_range: bool,
    order_type: Option<Seq<char>>,
) -> Result<(Seq<char>, Seq<char>), Seq<char>> {
    if !authenticated {
        Err("authentication required"@)
    } else if token_id is None {
        Err("token_id required in params"@)
    } else if !price_in_range {
        Err("Price must be between 0 and 1"@)
    } else {
        match opinion_order_type(order_type) {
            Some(k) => Ok((token_id->0, k)),
            None => Err(bad_order_type_message(order_type->0)),
        }
    }
}

/// The body of an order request, or why it is refused. `price_in_range`
/// says whether the price lies strictly between 0 and 1; `price` and
/// `size` are its decimal text.
pub fn create_order_body(
    config: &OpinionConfig,
    market_id: &str,
    token_id: Option<&str>,
    side: OrderSide,
    price_in_range: bool,
    price: &str,
    size: &str,
    order_type: Option<&str>,
) -> (r: Result<Json, OpenPxError>)
    ensures
        match order_request_of(
            config.api_key is Some,
            match token_id {
                Some(t) => Some(t@),
                None => None,
            },
            price_in_range,
            match order_type {
                Some(w) => Some(w@),
                None => None,
            },
        ) {
            Ok((tok, kind)) => r matches Ok(Json::Object(m)) && members_view(m@) == order_members(
                market_id@,
                tok,
                side,
                price@,
                size@,
                kind,
                config.chain_id,
            ),
            Err(msg) => if config.api_key is None {
                r matches Err(e) && is_auth_error(e)
            } else {
                r matches Err(OpenPxError::Exchange(ExchangeError::InvalidOrder(m))) && m@ == msg
            },
        },
{
    if config.api_key.is_none() {
        return Err(auth_error());
    }
    let tok = match token_id {
        Some(t) => t,
        None => {
            proof {
                reveal_strlit("token_id required in params");
            }
            return Err(
                OpenPxError::Exchange(ExchangeError::InvalidOrder(owned("token_id required in params"))),
            );
        },
    };
    if !price_in_range {
        proof {
            reveal_strlit("Price must be between 0 and 1");
        }
        return Err(OpenPxError::Exchange(ExchangeError::InvalidOrder(owned("Price must be between 0 and 1"))));
    }
    let kind = match order_type_word(order_type) {
        Ok(k) => k,
        Err(e) => return Err(e),
    };
    Ok(order_body(market_id, tok, side, price, size, kind, config.chain_id))
}

/// The id of the order a placement reply reports (empty when it names
/// none), or the rejection: a non-zero code with its message, or
/// `order failed` when there is none.
pub fn placed_order_id(env: &ApiEnvelope) -> (r: Result<String, OpenPxError>)
    ensures
        env.code != 0 ==> (r matches Err(OpenPxError::Exchange(ExchangeError::OrderRejected(m))) && m@
            == (match env.msg {
            Some(t) => t@,
            None => "order failed"@,
        })),
        env.code == 0 ==> (r matches Ok(id) && id@ == (match env.data {
            Some(d) => match str_field(*d, "order_id"@) {
                Some(t) => t,
                None => Seq::empty(),
            },
            None => Seq::empty(),
        })),
{
    if env.code != 0 {
        proof {
            reveal_strlit("order failed");
        }
        let m = match &env.msg {
            Some(t) => t.clone(),
            None => owned("order failed"),
        };
        return Err(OpenPxError::Exchange(ExchangeError::OrderRejected(m)));
    }
    proof {
        reveal_strlit("");
    }
    match env.data {
        Some(d) => match d.get_str("order_id") {
            Some(t) => Ok(owned(t)),
            None => Ok(owned("")),
        },
        None => Ok(owned("")),
    }
}

/// The open order a successful placement stands for, created at `now_ms`.
pub fn placed_order(
    id: String,
    market_id: &str,
    outcome: &str,
    side: OrderSide,
    price: &str,
    size: &str,
    now_ms: i64,
) -> (r: Order)
    ensures
        r.id == id,
        r.market_ticker@ == market_id@,
        r.outcome@ == outcome@,
        r.side == side,
        r.price matches Some(crate::models::Price::Decimal(p)) && p@ == price@,
        opt_view(r.size) == Some(size@),
        r.filled is None,
        r.fee is None,
        r.status == OrderStatus::Open,
        r.created_at == now_ms,
        r.updated_at is None,
{
    Order {
        id,
        market_ticker: owned(market_id),
        outcome: owned(outcome),
        side,
        price: Some(crate::models::Price::Decimal(owned(price))),
        size: Some(owned(size)),
        filled: None,
        fee: None,
        status: OrderStatus::Open,
        created_at: now_ms,
        updated_at: None,
    }
}

/// The body cancelling an order: `{"order_id": .., "chain_id": ..}`.
pub fn cancel_body(config: &OpinionConfig, order_id: &str) -> (r: Result<Json, OpenPxError>)
    ensures
        config.api_key is None ==> (r matches Err(e) && is_auth_error(e)),
        config.api_key is Some ==> (r matches Ok(Json::Object(m)) && members_view(m@) == seq![
            ("order_id"@, Scalar::Text(order_id@)),
            ("chain_id"@, Scalar::Int(config.chain_id as int)),
        ]),
{
    if config.api_key.is_none() {
        return Err(auth_error());
    }
    let mut m: Vec<(String, Json)> = Vec::new();
    m.push((owned("order_id"), Json::Str(owned(order_id))));
    m.push((owned("chain_id"), Json::UInt(config.chain_id)));
    proof {
        reveal_strlit("order_id");
        reveal_strlit("chain_id");
    }
    assert(members_view(m@) =~= seq![
        ("order_id"@, Scalar::Text(order_id@)),
        ("chain_id"@, Scalar::Int(config.chain_id as int)),
    ]);
    Ok(Json::Object(m))
}

/// The cancelled order a cancellation reply stands for (only its id and
/// market are known), or the API error: a non-zero code with its message,
/// or `cancel failed` when there is none.
pub fn cancelled_order(env: &ApiEnvelope, order_id: &str, market_id: Option<&str>, now_ms: i64) -> (r: Result<
    Order,
    OpenPxError,
>)
    ensures
        env.code != 0 ==> (r matches Err(OpenPxError::Exchange(ExchangeError::Api(m))) && m@ == (
        match env.msg {
            Some(t) => t@,
            None => "cancel failed"@,
        })),
        env.code == 0 ==> (r matches Ok(o) && o.id@ == order_id@ && o.market_ticker@ == (match market_id {
            Some(m) => m@,
            None => Seq::empty(),
        }) && o.outcome@ == Seq::<char>::empty() && o.side == OrderSide::Buy && o.price is None
            && o.size is None && o.filled is None && o.fee is None && o.status == OrderStatus::Cancelled
            && o.created_at == now_ms && o.updated_at == Some(now_ms)),
{
    if env.code != 0 {
        proof {
            reveal_strlit("cancel failed");
        }
        let m = match &env.msg {
            Some(t) => t.clone(),
            None => owned("cancel failed"),
        };
        return Err(OpenPxError::Exchange(ExchangeError::Api(m)));
    }
    proof {
        reveal_strlit("");
    }
    let market = match market_id {
        Some(m) => owned(m),
        None => owned(""),
    };
    Ok(
        Order {
            id: owned(order_id),
            market_ticker: market,
            outcome: owned(""),
            side: OrderSide::Buy,
            price: None,
            size: None,
            filled: None,
            fee: None,
            status: OrderStatus::Cancelled,
            created_at: now_ms,
            updated_at: Some(now_ms),
        },
    )
}

} // verus!
