//! Opinion order books: which outcome token a book request is for, the
//! request for a token's book, and the levels a book reply lists.

use vstd::prelude::*;
use vstd::string::*;

use crate::errors::OpenPxError;
use crate::json::{array_field, opt_view, views, Json};
use crate::opinion::fields::{amount_text, amount_text_of};
use crate::text::{ascii_lower_seq, concat, eq_ignore_ascii_case, owned, parse_u64, parse_u64_spec, trim, trim_seq};

verus! {

/// Whether two names are equal once ASCII case is ignored.
pub open spec fn same_name(a: Seq<char>, b: Seq<char>) -> bool {
    ascii_lower_seq(a) == ascii_lower_seq(b)
}

/// Whether some outcome is named `name`, ASCII case ignored.
pub open spec fn has_name(outcomes: Seq<Seq<char>>, name: Seq<char>) -> bool {
    exists|i: int| 0 <= i < outcomes.len() && same_name(#[trigger] outcomes[i], name)
}

/// Whether the outcomes are a Yes and a No: two of them, one named `yes`
/// and one `no`, ASCII case ignored.
pub open spec fn is_yes_no(outcomes: Seq<Seq<char>>) -> bool {
    outcomes.len() == 2 && has_name(outcomes, "yes"@) && has_name(outcomes, "no"@)
}

/// Whether `i` is the first outcome named `name`.
pub open spec fn is_first_named(outcomes: Seq<Seq<char>>, name: Seq<char>, i: int) -> bool {
    &&& 0 <= i < outcomes.len()
    &&& same_name(outcomes[i], name)
    &&& forall|j: int| 0 <= j < i ==> !same_name(#[trigger] outcomes[j], name)
}

/// The index of the first outcome named `name`, if any.
pub open spec fn first_named(outcomes: Seq<Seq<char>>, name: Seq<char>) -> Option<int> {
    if has_name(outcomes, name) {
        Some(choose|i: int| is_first_named(outcomes, name, i))
    } else {
        None
    }
}

/// What `usize::from_str` gives.
pub open spec fn parse_usize_spec(s: Seq<char>) -> Option<int> {
    match parse_u64_spec(s) {
        Some(n) => if n <= usize::MAX {
            Some(n as int)
        } else {
            None
        },
        None => None,
    }
}

/// The outcome a request names: by index when it is a whole number, else
/// by name; with no outcome named, the first of a Yes/No pair. `Err`
/// carries the message of an outcome that cannot be resolved.
pub open spec fn outcome_index(outcomes: Seq<Seq<char>>, outcome: Option<Seq<char>>) -> Result<int, Seq<char>> {
    match outcome {
        Some(raw) => if trim_seq(raw).len() == 0 {
            Err("invalid outcome"@)
        } else {
            match parse_usize_spec(raw) {
                Some(i) => Ok(i),
                None => match first_named(outcomes, raw) {
                    Some(i) => Ok(i),
                    None => Err("invalid outcome"@),
                },
            }
        },
        None => if is_yes_no(outcomes) {
            Ok(0)
        } else {
            Err("outcome required for non-binary markets"@)
        },
    }
}

/// The outcome token a book request is for, or the message refusing it.
pub open spec fn outcome_token_of(
    token_ids: Seq<Seq<char>>,
    outcomes: Seq<Seq<char>>,
    outcome: Option<Seq<char>>,
) -> Result<Seq<char>, Seq<char>> {
    if token_ids.len() == 0 {
        Err("no token IDs found for market"@)
    } else {
        match outcome_index(outcomes, outcome) {
            Ok(i) => if i < token_ids.len() {
                Ok(token_ids[i])
            } else {
                Err("token not found for outcome"@)
            },
            Err(m) => Err(m),
        }
    }
}

/// Whether some outcome is named `name`.
fn find_name(outcomes: &Vec<String>, name: &str) -> (r: Option<usize>)
    ensures
        match r {
            Some(i) => is_first_named(views(outcomes@), name@, i as int),
            None => !has_name(views(outcomes@), name@),
        },
{
    let ghost o = views(outcomes@);
    let mut i: usize = 0;
    while i < outcomes.len()
        invariant
            i <= outcomes.len(),
            o == views(outcomes@),
            o.len() == outcomes.len(),
            forall|j: int| 0 <= j < i ==> !same_name(#[trigger] o[j], name@),
        decreases outcomes.len() - i,
    {
        assert(o[i as int] == outcomes@[i as int]@);
        if eq_ignore_ascii_case(outcomes[i].as_str(), name) {
            return Some(i);
        }
        i = i + 1;
    }
    None
}

/// The first outcome named `name` is the one `first_named` picks.
proof fn lemma_first_named(outcomes: Seq<Seq<char>>, name: Seq<char>, i: int)
    requires
        is_first_named(outcomes, name, i),
    ensures
        first_named(outcomes, name) == Some(i),
{
    assert(has_name(outcomes, name));
    let k = choose|k: int| is_first_named(outcomes, name, k);
    assert(is_first_named(outcomes, name, k));
    if k < i {
        assert(!same_name(outcomes[k], name));
    } else if i < k {
        assert(!same_name(outcomes[i], name));
    }
}

/// Resolves the outcome token of a book request from the market's token
/// ids and outcome names (in the same order) and the outcome asked for.
pub fn outcome_token(token_ids: &Vec<String>, outcomes: &Vec<String>, outcome: Option<&str>) -> (r: Result<
    String,
    OpenPxError,
>)
    ensures
        match outcome_token_of(
            views(token_ids@),
            views(outcomes@),
            match outcome {
                Some(o) => Some(o@),
                None => None,
            },
        ) {
            Ok(t) => r matches Ok(s) && s@ == t,
            Err(m) => r matches Err(OpenPxError::InvalidInput(e)) && e@ == m,
        },
{
    proof {
        reveal_strlit("no token IDs found for market");
        reveal_strlit("invalid outcome");
        reveal_strlit("outcome required for non-binary markets");
        reveal_strlit("token not found for outcome");
        reveal_strlit("yes");
        reveal_strlit("no");
    }
    let ghost o = views(outcomes@);
    if token_ids.len() == 0 {
        return Err(OpenPxError::InvalidInput(owned("no token IDs found for market")));
    }
    let idx: usize = match outcome {
        Some(raw) => {
            let t = trim(raw);
            if t.unicode_len() == 0 {
                return Err(OpenPxError::InvalidInput(owned("invalid outcome")));
            }
            let parsed = parse_u64(raw);
            match parsed {
                Some(n) if n <= usize::MAX as u64 => n as usize,
                _ => match find_name(outcomes, raw) {
                    Some(i) => {
                        proof {
                            lemma_first_named(o, raw@, i as int);
                        }
                        i
                    },
                    None => return Err(OpenPxError::InvalidInput(owned("invalid outcome"))),
                },
            }
        },
        None => {
            let yes = find_name(outcomes, "yes");
            let no = find_name(outcomes, "no");
            if outcomes.len() == 2 && yes.is_some() && no.is_some() {
                0
            } else {
                return Err(OpenPxError::InvalidInput(owned("outcome required for non-binary markets")));
            }
        },
    };
    if idx < token_ids.len() {
        Ok(token_ids[idx].clone())
    } else {
        Err(OpenPxError::InvalidInput(owned("token not found for outcome")))
    }
}

/// The request for the book of outcome token `token_id`.
pub fn orderbook_endpoint(token_id: &str) -> (r: String)
    ensures
        r@ == "/openapi/token/orderbook?token_id="@ + token_id@,
{
    proof {
        reveal_strlit("/openapi/token/orderbook?token_id=");
    }
    concat("/openapi/token/orderbook?token_id=", token_id)
}

/// One level of a book reply as sent: its price and size as number text,
/// where they read as numbers.
#[derive(Debug, Clone)]
pub struct BookEntry {
    pub price: Option<String>,
    pub size: Option<String>,
}

/// The amount of member `key` of `item`.
pub open spec fn entry_amount(item: Json, key: Seq<char>) -> Option<Seq<char>> {
    match item.field(key) {
        Some(v) => amount_text_of(v),
        None => None,
    }
}

/// Whether `e` is the level `item` lists.
pub open spec fn is_entry_of(e: BookEntry, item: Json) -> bool {
    opt_view(e.price) == entry_amount(item, "price"@) && opt_view(e.size) == entry_amount(item, "size"@)
}

/// The levels listed under `key` (`bids` or `asks`) of a book's `data`, in
/// the order sent; none when there is no such list.
pub fn book_entries(data: &Json, key: &str) -> (r: Vec<BookEntry>)
    ensures
        match array_field(*data, key@) {
            Some(items) => r@.len() == items.len() && forall|i: int|
                0 <= i < items.len() ==> is_entry_of(#[trigger] r@[i], items[i]),
            None => r@.len() == 0,
        },
{
    let mut out: Vec<BookEntry> = Vec::new();
    let items = match data.get(key) {
        Some(v) => match v.as_array() {
            Some(a) => a,
            None => return out,
        },
        None => return out,
    };
    let mut i: usize = 0;
    while i < items.len()
        invariant
            i <= items.len(),
            out@.len() == i,
            forall|k: int| 0 <= k < i ==> is_entry_of(#[trigger] out@[k], items@[k]),
        decreases items.len() - i,
    {
        let item = &items[i];
        let price = match item.get("price") {
            Some(v) => amount_text(v),
            None => None,
        };
        let size = match item.get("size") {
            Some(v) => amount_text(v),
            None => None,
        };
        proof {
            reveal_strlit("price");
            reveal_strlit("size");
        }
        out.push(BookEntry { price, size });
        i = i + 1;
    }
    out
}

} // verus!
