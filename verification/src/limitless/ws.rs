//! The Limitless socket's subscription payload and the book messages it
//! pushes, read into plain values. Price levels stay number text.

use vstd::prelude::*;

use crate::json::{opt_view, str_field, views, Json};
use crate::text::owned;

verus! {

/// The socket namespace of market prices.
pub const NAMESPACE: &'static str = "/markets";

/// The event name that subscribes to market prices.
pub const SUBSCRIBE_EVENT: &'static str = "subscribe_market_prices";

/// The markets a socket follows, by slug and by contract address.
#[derive(Debug)]
pub struct LimitlessSubscriptions {
    pub slugs: Vec<String>,
    pub addresses: Vec<String>,
}

/// The subscription payload: `marketSlugs` and `marketAddresses`, each left
/// out when empty; `None` when there is nothing to subscribe to.
pub open spec fn payload_keys(slugs: Seq<Seq<char>>, addresses: Seq<Seq<char>>) -> Option<Seq<Seq<char>>> {
    if slugs.len() == 0 && addresses.len() == 0 {
        None
    } else {
        Some(
            (if slugs.len() > 0 {
                seq!["marketSlugs"@]
            } else {
                Seq::empty()
            }) + (if addresses.len() > 0 {
                seq!["marketAddresses"@]
            } else {
                Seq::empty()
            }),
        )
    }
}

/// Whether `arr` is a JSON array of exactly the texts `v`.
pub open spec fn is_text_array(arr: Json, v: Seq<Seq<char>>) -> bool {
    arr matches Json::Array(a) && a@.len() == v.len() && forall|i: int|
        0 <= i < v.len() ==> (#[trigger] a@[i]).str_of() == Some(v[i])
}

/// A JSON array of texts.
fn text_array(v: &Vec<String>) -> (r: Json)
    ensures
        is_text_array(r, views(v@)),
{
    let mut a: Vec<Json> = Vec::new();
    let mut i: usize = 0;
    while i < v.len()
        invariant
            i <= v.len(),
            a@.len() == i,
            forall|k: int| 0 <= k < i ==> (#[trigger] a@[k]).str_of() == Some(v@[k]@),
        decreases v.len() - i,
    {
        a.push(Json::Str(v[i].clone()));
        i = i + 1;
    }
    Json::Array(a)
}

impl LimitlessSubscriptions {
    /// The subscription payload, or `None` when there is nothing to follow.
    pub fn payload(&self) -> (r: Option<Json>)
        ensures
            match payload_keys(views(self.slugs@), views(self.addresses@)) {
                None => r is None,
                Some(keys) => r matches Some(Json::Object(m)) && m@.len() == keys.len() && (forall|i: int|
                    0 <= i < keys.len() ==> (#[trigger] m@[i]).0@ == keys[i]) && (self.slugs@.len() > 0
                    ==> is_text_array(m@[0].1, views(self.slugs@))) && (self.addresses@.len() > 0
                    ==> is_text_array(m@[m@.len() - 1].1, views(self.addresses@))),
            },
    {
        if self.slugs.len() == 0 && self.addresses.len() == 0 {
            return None;
        }
        let mut m: Vec<(String, Json)> = Vec::new();
        if self.slugs.len() > 0 {
            m.push((owned("marketSlugs"), text_array(&self.slugs)));
        }
        if self.addresses.len() > 0 {
            m.push((owned("marketAddresses"), text_array(&self.addresses)));
        }
        Some(Json::Object(m))
    }
}

/// Where the levels of a book message are: its `orderbook` member when it
/// has one, else the message itself.
pub open spec fn level_source(v: Json) -> Json {
    match v.field("orderbook"@) {
        Some(ob) => ob,
        None => v,
    }
}

/// The raw levels on side `key` of a book message (an absent or
/// non-array side has none).
pub open spec fn side_levels(v: Json, key: Seq<char>) -> Option<Seq<Json>> {
    match level_source(v).field(key) {
        Some(Json::Array(a)) => Some(a@),
        _ => None,
    }
}

/// The market a book message is about: `marketSlug`, or its alias `slug`.
pub open spec fn book_market(v: Json) -> Option<Seq<char>> {
    crate::json::first_some(str_field(v, "marketSlug"@), str_field(v, "slug"@))
}

/// A book message: its market, and its raw bid and ask levels (`None` for
/// a side without levels).
pub struct BookLevels<'a> {
    pub market: String,
    pub bids: Option<&'a Vec<Json>>,
    pub asks: Option<&'a Vec<Json>>,
}

/// The levels of an optional side.
pub open spec fn levels_view(o: Option<&Vec<Json>>) -> Option<Seq<Json>> {
    match o {
        Some(a) => Some(a@),
        None => None,
    }
}

/// Reads the market and raw levels of a book message.
pub fn book_levels<'a>(v: &'a Json) -> (r: Option<BookLevels<'a>>)
    ensures
        match book_market(*v) {
            None => r is None,
            Some(m) => r matches Some(x) && x.market@ == m && levels_view(x.bids) == side_levels(
                *v,
                "bids"@,
            ) && levels_view(x.asks) == side_levels(*v, "asks"@),
        },
{
    let market = match v.get_str("marketSlug") {
        Some(s) => owned(s),
        None => match v.get_str("slug") {
            Some(s) => owned(s),
            None => return None,
        },
    };
    let src = match v.get("orderbook") {
        Some(ob) => ob,
        None => v,
    };
    let bids = match src.get("bids") {
        Some(Json::Array(a)) => Some(a),
        _ => None,
    };
    let asks = match src.get("asks") {
        Some(Json::Array(a)) => Some(a),
        _ => None,
    };
    Some(BookLevels { market, bids, asks })
}

} // verus!
