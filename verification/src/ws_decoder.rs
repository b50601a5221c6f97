//! Decoding of WebSocket text frames that carry either one JSON object or a
//! top-level array of them.

use vstd::prelude::*;

use crate::json::{parse_json, spec_parse_json, Json};
use crate::text::{chars_of, skip_white_space, trim_start_seq};

verus! {

/// A parsed frame: one item, or the items of a top-level array.
#[derive(Debug)]
pub enum WsFrame<T> {
    Single(T),
    Array(Vec<T>),
}

/// The items a frame holds, in order.
pub open spec fn frame_items<T>(frame: WsFrame<T>) -> Seq<T> {
    match frame {
        WsFrame::Single(item) => seq![item],
        WsFrame::Array(items) => items@,
    }
}

impl<T> WsFrame<T> {
    /// Calls `f` on each contained item, in order, consuming the frame.
    pub fn for_each<F: FnMut(T)>(self, mut f: F)
        requires
            forall|t: T| #[trigger] f.requires((t,)),
    {
        match self {
            WsFrame::Single(item) => f(item),
            WsFrame::Array(items) => {
                for item in items
                    invariant
                        forall|t: T| #[trigger] f.requires((t,)),
                {
                    f(item);
                }
            },
        }
    }
}

/// What `decode_frame` gives for `text`: when its first character that is
/// not white space is `[`, the elements of the array the text holds;
/// otherwise the single document it holds; `None` when it holds neither.
pub open spec fn frame_of(text: Seq<char>) -> Option<WsFrame<Json>> {
    let t = trim_start_seq(text);
    if t.len() > 0 && t[0] == '[' {
        match spec_parse_json(text) {
            Some(Json::Array(items)) => Some(WsFrame::Array(items)),
            _ => None,
        }
    } else {
        match spec_parse_json(text) {
            Some(j) => Some(WsFrame::Single(j)),
            None => None,
        }
    }
}

/// Decodes a frame in one pass, choosing single or array by the first
/// character that is not white space. `None` on malformed input.
pub fn decode_frame(text: &str) -> (r: Option<WsFrame<Json>>)
    ensures
        r == frame_of(text@),
{
    let v = chars_of(text);
    let i = skip_white_space(&v, 0);
    if i < v.len() && v[i] == '[' {
        match parse_json(text) {
            Some(Json::Array(items)) => Some(WsFrame::Array(items)),
            _ => None,
        }
    } else {
        match parse_json(text) {
            Some(j) => Some(WsFrame::Single(j)),
            None => None,
        }
    }
}

/// Parses `text` as one JSON document, for handlers that dispatch on a
/// field of a loosely typed value.
pub fn decode_value(text: &str) -> (r: Option<Json>)
    ensures
        r == spec_parse_json(text@),
{
    parse_json(text)
}

} // verus!
