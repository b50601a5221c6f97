//! Canonical Kalshi outcome labels.

use vstd::prelude::*;

use crate::text::{ascii_lower_seq, str_eq, to_ascii_lowercase, trim, trim_seq};

verus! {

/// The canonical label of a raw Kalshi outcome: `"Yes"` or `"No"` for any
/// spelling of yes/no once trimmed and ASCII-lowered, nothing otherwise.
pub open spec fn outcome_label(raw: Seq<char>) -> Option<Seq<char>> {
    let l = ascii_lower_seq(trim_seq(raw));
    if l == "yes"@ {
        Some("Yes"@)
    } else if l == "no"@ {
        Some("No"@)
    } else {
        None
    }
}

/// Canonicalizes a Kalshi outcome string to `"Yes"` or `"No"`; `None` for
/// an absent or unrecognized outcome.
pub fn normalize_kalshi_outcome(outcome: Option<&str>) -> (r: Option<String>)
    ensures
        match outcome {
            None => r is None,
            Some(o) => match outcome_label(o@) {
                None => r is None,
                Some(l) => r matches Some(x) && x@ == l,
            },
        },
{
    match outcome {
        None => None,
        Some(o) => {
            let t = trim(o);
            let l = to_ascii_lowercase(t.as_str());
            if str_eq(l.as_str(), "yes") {
                Some("Yes".to_owned())
            } else if str_eq(l.as_str(), "no") {
                Some("No".to_owned())
            } else {
                None
            }
        },
    }
}

} // verus!
