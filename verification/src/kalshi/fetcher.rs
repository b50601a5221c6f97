//! Paged market fetching for Kalshi: per-status resume cursors, page URLs
//! and the per-page decisions.

use vstd::prelude::*;

use crate::json::{json_text, parse_json, spec_json_text, spec_parse_json, Json, member_index};
use crate::kalshi::error::KalshiError;
use crate::text::{contains_seq, decimal, owned, push_decimal, str_contains};
use vstd::string::*;

verus! {

/// The Kalshi REST base URL markets are fetched from.
pub const KALSHI_API_URL: &'static str = "https://api.elections.kalshi.com/trade-api/v2";

/// The market statuses fetched as separate cursor streams.
pub open spec fn kalshi_statuses() -> Seq<Seq<char>> {
    seq!["unopened"@, "open"@, "paused"@, "closed"@, "settled"@]
}

/// The view of an optional string.
pub open spec fn opt_str(o: Option<String>) -> Option<Seq<char>> {
    match o {
        Some(s) => Some(s@),
        None => None,
    }
}

/// The map a list of `(status, cursor)` pairs stands for; a later pair for
/// the same status overrides an earlier one.
pub open spec fn pairs_map(ps: Seq<(String, Option<String>)>) -> Map<Seq<char>, Option<Seq<char>>>
    decreases ps.len(),
{
    if ps.len() == 0 {
        Map::empty()
    } else {
        pairs_map(ps.drop_last()).insert(ps.last().0@, opt_str(ps.last().1))
    }
}

/// No status occurs twice.
pub open spec fn distinct_keys(ps: Seq<(String, Option<String>)>) -> bool {
    forall|i: int, j: int| 0 <= i < j < ps.len() ==> ps[i].0@ != ps[j].0@
}

/// Per-status cursor state for resumable parallel fetching. A status maps
/// to `None` once its stream is exhausted.
#[derive(Debug)]
pub struct StatusCursors {
    cursors: Vec<(String, Option<String>)>,
}

proof fn lemma_pairs_map_lookup(ps: Seq<(String, Option<String>)>, i: int)
    requires
        distinct_keys(ps),
        0 <= i < ps.len(),
    ensures
        pairs_map(ps).contains_key(ps[i].0@),
        pairs_map(ps)[ps[i].0@] == opt_str(ps[i].1),
    decreases ps.len(),
{
    if i < ps.len() - 1 {
        assert(distinct_keys(ps.drop_last()));
        lemma_pairs_map_lookup(ps.drop_last(), i);
    }
}

proof fn lemma_pairs_map_absent(ps: Seq<(String, Option<String>)>, k: Seq<char>)
    requires
        forall|i: int| 0 <= i < ps.len() ==> ps[i].0@ != k,
    ensures
        !pairs_map(ps).contains_key(k),
    decreases ps.len(),
{
    if ps.len() > 0 {
        lemma_pairs_map_absent(ps.drop_last(), k);
    }
}

proof fn lemma_pairs_map_update(
    ps: Seq<(String, Option<String>)>,
    i: int,
    v: Option<String>,
)
    requires
        distinct_keys(ps),
        0 <= i < ps.len(),
    ensures
        pairs_map(ps.update(i, (ps[i].0, v))) == pairs_map(ps).insert(ps[i].0@, opt_str(v)),
    decreases ps.len(),
{
    let qs = ps.update(i, (ps[i].0, v));
    if i == ps.len() - 1 {
        assert(qs.drop_last() =~= ps.drop_last());
        assert(distinct_keys(ps.drop_last()));
        lemma_pairs_map_absent(ps.drop_last(), ps[i].0@);
        assert(pairs_map(qs) =~= pairs_map(ps).insert(ps[i].0@, opt_str(v)));
    } else {
        assert(qs.drop_last() =~= ps.drop_last().update(i, (ps[i].0, v)));
        assert(distinct_keys(ps.drop_last()));
        lemma_pairs_map_update(ps.drop_last(), i, v);
        assert(pairs_map(qs) =~= pairs_map(ps).insert(ps[i].0@, opt_str(v)));
    }
}

impl View for StatusCursors {
    type V = Map<Seq<char>, Option<Seq<char>>>;

    closed spec fn view(&self) -> Map<Seq<char>, Option<Seq<char>>> {
        pairs_map(self.cursors@)
    }
}

/// The cursor recorded for `status`: the stored one, or `None` when the
/// status is absent or exhausted.
pub open spec fn cursor_for(m: Map<Seq<char>, Option<Seq<char>>>, status: Seq<char>) -> Option<
    Seq<char>,
> {
    if m.contains_key(status) {
        m[status]
    } else {
        None
    }
}

impl StatusCursors {
    #[verifier::type_invariant]
    closed spec fn wf(self) -> bool {
        distinct_keys(self.cursors@)
    }

    /// No cursor recorded for any status.
    pub fn new() -> (r: Self)
        ensures
            r@ == Map::<Seq<char>, Option<Seq<char>>>::empty(),
    {
        StatusCursors { cursors: Vec::new() }
    }

    /// The cursor to resume `status` from.
    pub fn get(&self, status: &str) -> (r: Option<String>)
        ensures
            opt_str(r) == cursor_for(self@, status@),
    {
        proof {
            use_type_invariant(self);
        }
        let mut i: usize = 0;
        while i < self.cursors.len()
            invariant
                i <= self.cursors.len(),
                distinct_keys(self.cursors@),
                forall|j: int| 0 <= j < i ==> self.cursors@[j].0@ != status@,
            decreases self.cursors.len() - i,
        {
            if crate::text::str_eq(self.cursors[i].0.as_str(), status) {
                proof {
                    lemma_pairs_map_lookup(self.cursors@, i as int);
                }
                return match &self.cursors[i].1 {
                    Some(c) => Some(c.clone()),
                    None => None,
                };
            }
            i = i + 1;
        }
        proof {
            lemma_pairs_map_absent(self.cursors@, status@);
        }
        None
    }

    /// Records `cursor` as where `status` resumes from.
    pub fn set(&mut self, status: &str, cursor: Option<String>)
        ensures
            final(self)@ == old(self)@.insert(status@, opt_str(cursor)),
    {
        proof {
            use_type_invariant(&*self);
        }
        let mut i: usize = 0;
        let n = self.cursors.len();
        while i < n
            invariant
                i <= n,
                n == self.cursors.len(),
                self.cursors@ == old(self).cursors@,
                distinct_keys(self.cursors@),
                forall|j: int| 0 <= j < i ==> self.cursors@[j].0@ != status@,
            decreases n - i,
        {
            if crate::text::str_eq(self.cursors[i].0.as_str(), status) {
                let ghost before = self.cursors@;
                let key = self.cursors[i].0.clone();
                let mut cursors: Vec<(String, Option<String>)> = Vec::new();
                std::mem::swap(&mut cursors, &mut self.cursors);
                cursors.set(i, (key, cursor));
                proof {
                    lemma_pairs_map_update(before, i as int, cursor);
                    assert(cursors@ =~= before.update(i as int, (before[i as int].0, cursor)));
                    assert(distinct_keys(cursors@));
                }
                self.cursors = cursors;
                return;
            }
            i = i + 1;
        }
        let ghost before = self.cursors@;
        let mut cursors: Vec<(String, Option<String>)> = Vec::new();
                std::mem::swap(&mut cursors, &mut self.cursors);
        cursors.push((owned(status), cursor));
        proof {
            assert(cursors@.drop_last() =~= before);
            assert(distinct_keys(cursors@));
        }
        self.cursors = cursors;
    }
}

impl Clone for StatusCursors {
    fn clone(&self) -> (r: Self)
        ensures
            r@ == self@,
    {
        proof {
            use_type_invariant(self);
        }
        let mut cursors: Vec<(String, Option<String>)> = Vec::new();
        let mut i: usize = 0;
        while i < self.cursors.len()
            invariant
                i <= self.cursors.len(),
                distinct_keys(self.cursors@),
                cursors@.len() == i,
                forall|j: int|
                    0 <= j < i ==> (#[trigger] cursors@[j]).0@ == self.cursors@[j].0@ && opt_str(
                        cursors@[j].1,
                    ) == opt_str(self.cursors@[j].1),
            decreases self.cursors.len() - i,
        {
            let c = match &self.cursors[i].1 {
                Some(c) => Some(c.clone()),
                None => None,
            };
            cursors.push((self.cursors[i].0.clone(), c));
            i = i + 1;
        }
        proof {
            lemma_pairs_map_same(cursors@, self.cursors@);
        }
        StatusCursors { cursors }
    }
}

proof fn lemma_pairs_map_same(a: Seq<(String, Option<String>)>, b: Seq<(String, Option<String>)>)
    requires
        a.len() == b.len(),
        forall|j: int|
            0 <= j < a.len() ==> (#[trigger] a[j]).0@ == b[j].0@ && opt_str(a[j].1) == opt_str(
                b[j].1,
            ),
    ensures
        pairs_map(a) == pairs_map(b),
        distinct_keys(b) ==> distinct_keys(a),
    decreases a.len(),
{
    if a.len() > 0 {
        lemma_pairs_map_same(a.drop_last(), b.drop_last());
        assert(a.last().0@ == b.last().0@);
    }
}

/// The cursor a JSON member value stands for: `null` is an exhausted
/// stream, a string a resume point; anything else is malformed.
pub open spec fn cursor_value(j: Json) -> Option<Option<Seq<char>>> {
    match j {
        Json::Null => Some(None),
        Json::Str(s) => Some(Some(s@)),
        _ => None,
    }
}

/// Every member value is `null` or a string.
pub open spec fn cursor_members_ok(es: Seq<(String, Json)>) -> bool {
    forall|i: int| 0 <= i < es.len() ==> (#[trigger] cursor_value(es[i].1)) is Some
}

/// The map the members of a cursor object stand for; a later member for
/// the same status overrides an earlier one.
pub open spec fn members_map(es: Seq<(String, Json)>) -> Map<Seq<char>, Option<Seq<char>>>
    decreases es.len(),
{
    if es.len() == 0 {
        Map::empty()
    } else {
        members_map(es.drop_last()).insert(es.last().0@, cursor_value(es.last().1).unwrap())
    }
}

/// The cursors an object of `status: cursor` members holds.
pub open spec fn cursors_of_object(j: Json) -> Option<Map<Seq<char>, Option<Seq<char>>>> {
    match j {
        Json::Object(es) => if cursor_members_ok(es@) {
            Some(members_map(es@))
        } else {
            None
        },
        _ => None,
    }
}

/// The cursors a `StatusCursors` document holds: an object whose `cursors`
/// member is such an object, or a one-element array holding one.
pub open spec fn cursors_of_doc(j: Json) -> Option<Map<Seq<char>, Option<Seq<char>>>> {
    match j {
        Json::Object(_) => match j.field("cursors"@) {
            Some(c) => cursors_of_object(c),
            None => None,
        },
        Json::Array(items) => if items@.len() == 1 {
            cursors_of_object(items@[0])
        } else {
            None
        },
        _ => None,
    }
}

/// The cursors `StatusCursors::parse` resumes from: those the text holds,
/// or none at all when the text is absent or not a cursor document.
pub open spec fn parsed_cursors(text: Option<Seq<char>>) -> Map<Seq<char>, Option<Seq<char>>> {
    match text {
        None => Map::empty(),
        Some(t) => match spec_parse_json(t) {
            Some(j) => match cursors_of_doc(j) {
                Some(m) => m,
                None => Map::empty(),
            },
            None => Map::empty(),
        },
    }
}

/// The JSON document that stands for the cursors `m`: an object with one
/// member, `cursors`, holding one member per status.
pub open spec fn is_cursors_doc(j: Json, m: Map<Seq<char>, Option<Seq<char>>>) -> bool {
    &&& j is Object
    &&& j->Object_0@.len() == 1
    &&& j->Object_0@[0].0@ == "cursors"@
    &&& cursors_of_object(j->Object_0@[0].1) == Some(m)
}

impl StatusCursors {
    /// The cursors held by an object of `status: cursor` members; `None`
    /// when a member value is neither `null` nor a string.
    fn from_object(j: &Json) -> (r: Option<Self>)
        ensures
            match r {
                Some(c) => cursors_of_object(*j) == Some(c@),
                None => cursors_of_object(*j) is None,
            },
    {
        match j {
            Json::Object(es) => {
                let mut i: usize = 0;
                while i < es.len()
                    invariant
                        i <= es.len(),
                        *j == Json::Object(*es),
                        forall|k: int| 0 <= k < i ==> (#[trigger] cursor_value(es@[k].1)) is Some,
                    decreases es.len() - i,
                {
                    match &es[i].1 {
                        Json::Null => {},
                        Json::Str(_) => {},
                        _ => {
                            assert(cursor_value(es@[i as int].1) is None);
                            return None;
                        },
                    }
                    i = i + 1;
                }
                let mut c = StatusCursors::new();
                let mut i: usize = 0;
                while i < es.len()
                    invariant
                        i <= es.len(),
                        *j == Json::Object(*es),
                        cursor_members_ok(es@),
                        c@ == members_map(es@.subrange(0, i as int)),
                    decreases es.len() - i,
                {
                    let v = match &es[i].1 {
                        Json::Str(s) => Some(s.clone()),
                        _ => None,
                    };
                    assert(cursor_value(es@[i as int].1) is Some);
                    c.set(es[i].0.as_str(), v);
                    assert(es@.subrange(0, i + 1).drop_last() =~= es@.subrange(0, i as int));
                    i = i + 1;
                }
                assert(es@.subrange(0, es.len() as int) =~= es@);
                Some(c)
            },
            _ => None,
        }
    }

    /// Resume state from a cursor string; no cursor at all when the string is
    /// absent or is not a cursor document.
    pub fn parse(cursor_str: Option<&str>) -> (r: Self)
        ensures
            r@ == parsed_cursors(match cursor_str {
                Some(s) => Some(s@),
                None => None,
            }),
    {
        match cursor_str {
            None => StatusCursors::new(),
            Some(s) => match parse_json(s) {
                None => StatusCursors::new(),
                Some(doc) => {
                    let target: Option<&Json> = match &doc {
                        Json::Object(_) => doc.get("cursors"),
                        Json::Array(items) => if items.len() == 1 {
                            Some(&items[0])
                        } else {
                            None
                        },
                        _ => None,
                    };
                    match target {
                        Some(obj) => match StatusCursors::from_object(obj) {
                            Some(c) => c,
                            None => StatusCursors::new(),
                        },
                        None => StatusCursors::new(),
                    }
                },
            },
        }
    }

    /// The document this state is written as.
    pub fn to_json(&self) -> (r: Json)
        ensures
            is_cursors_doc(r, self@),
    {
        proof {
            use_type_invariant(self);
        }
        let mut es: Vec<(String, Json)> = Vec::new();
        let mut i: usize = 0;
        while i < self.cursors.len()
            invariant
                i <= self.cursors.len(),
                es@.len() == i,
                forall|j: int|
                    0 <= j < i ==> (#[trigger] es@[j]).0@ == self.cursors@[j].0@ && cursor_value(
                        es@[j].1,
                    ) == Some(opt_str(self.cursors@[j].1)),
            decreases self.cursors.len() - i,
        {
            let v = match &self.cursors[i].1 {
                Some(c) => Json::Str(c.clone()),
                None => Json::Null,
            };
            es.push((self.cursors[i].0.clone(), v));
            i = i + 1;
        }
        proof {
            lemma_members_map_pairs(es@, self.cursors@);
        }
        let mut top: Vec<(String, Json)> = Vec::new();
        top.push((owned("cursors"), Json::Object(es)));
        Json::Object(top)
    }

    /// The state written as JSON text.
    pub fn serialize(&self) -> (r: String)
        ensures
            exists|j: Json| is_cursors_doc(j, self@) && r@ == spec_json_text(j),
    {
        let j = self.to_json();
        json_text(&j)
    }
}

proof fn lemma_members_map_pairs(es: Seq<(String, Json)>, ps: Seq<(String, Option<String>)>)
    requires
        es.len() == ps.len(),
        forall|j: int|
            0 <= j < es.len() ==> (#[trigger] es[j]).0@ == ps[j].0@ && cursor_value(es[j].1)
                == Some(opt_str(ps[j].1)),
    ensures
        cursor_members_ok(es),
        members_map(es) == pairs_map(ps),
    decreases es.len(),
{
    if es.len() > 0 {
        lemma_members_map_pairs(es.drop_last(), ps.drop_last());
        assert(es.last().0@ == ps.last().0@);
    }
}

/// Writing cursors as a document and reading that document gives the same
/// cursors back.
pub proof fn lemma_cursors_doc_round_trip(j: Json, m: Map<Seq<char>, Option<Seq<char>>>)
    requires
        is_cursors_doc(j, m),
    ensures
        cursors_of_doc(j) == Some(m),
{
    assert(member_index(j->Object_0@, "cursors"@, 0) == 0);
}

/// Setting a status's cursor and reading it back gives the cursor set; the
/// other statuses keep theirs.
pub proof fn lemma_set_then_get(
    m: Map<Seq<char>, Option<Seq<char>>>,
    status: Seq<char>,
    cursor: Option<Seq<char>>,
    other: Seq<char>,
)
    ensures
        cursor_for(m.insert(status, cursor), status) == cursor,
        other != status ==> cursor_for(m.insert(status, cursor), other) == cursor_for(m, other),
{
}


/// Market fetcher for Kalshi ingestion; pages through `/markets`, either
/// sequentially or as one cursor stream per market status.
pub struct KalshiMarketFetcher {
    base_url: String,
}

/// The Kalshi REST base URL, as text.
pub open spec fn kalshi_api_url() -> Seq<char> {
    "https://api.elections.kalshi.com/trade-api/v2"@
}

/// `/markets?limit={limit}` under `base`, with `&cursor={c}` when resuming.
pub open spec fn markets_page_url_spec(base: Seq<char>, limit: nat, cursor: Option<Seq<char>>) -> Seq<
    char,
> {
    let head = base + "/markets?limit="@ + decimal(limit);
    match cursor {
        Some(c) => head + "&cursor="@ + c,
        None => head,
    }
}

/// `/markets?status={status}&limit={limit}` under `base`, with
/// `&cursor={c}` when resuming.
pub open spec fn status_page_url_spec(
    base: Seq<char>,
    status: Seq<char>,
    limit: nat,
    cursor: Option<Seq<char>>,
) -> Seq<char> {
    let head = base + "/markets?status="@ + status + "&limit="@ + decimal(limit);
    match cursor {
        Some(c) => head + "&cursor="@ + c,
        None => head,
    }
}

/// The status of a raw market, `"open"` when it has none.
pub open spec fn market_status_of(raw: Json) -> Seq<char> {
    match raw.field("status"@) {
        Some(v) => match v.str_of() {
            Some(s) => s,
            None => "open"@,
        },
        None => "open"@,
    }
}

/// The markets a page body holds: its `markets` array, or none.
pub open spec fn page_markets(body: Json) -> Seq<Json> {
    match body.field("markets"@) {
        Some(Json::Array(a)) => a@,
        _ => Seq::empty(),
    }
}

/// The cursor of the next page: the body's non-empty `cursor` string.
pub open spec fn page_cursor(body: Json) -> Option<Seq<char>> {
    match body.field("cursor"@) {
        Some(c) => match c.str_of() {
            Some(s) => if s.len() > 0 {
                Some(s)
            } else {
                None
            },
            None => None,
        },
        None => None,
    }
}

impl KalshiMarketFetcher {
    /// The base URL this fetcher pages under.
    pub closed spec fn base(&self) -> Seq<char> {
        self.base_url@
    }

    /// A fetcher for the production Kalshi API.
    pub fn new() -> (r: Result<Self, KalshiError>)
        ensures
            r matches Ok(f) && f.base() == kalshi_api_url(),
    {
        Ok(KalshiMarketFetcher { base_url: owned(KALSHI_API_URL) })
    }

    /// The exchange these markets come from.
    pub fn exchange_id(&self) -> (r: &'static str)
        ensures
            r@ == "kalshi"@,
    {
        "kalshi"
    }

    /// The base URL this fetcher pages under.
    pub fn base_url(&self) -> (r: &str)
        ensures
            r@ == self.base(),
    {
        self.base_url.as_str()
    }

    /// The status of a raw market, `"open"` when it has none.
    pub fn extract_status(&self, raw: &Json) -> (r: String)
        ensures
            r@ == market_status_of(*raw),
    {
        match raw.get("status") {
            Some(v) => match v.as_str() {
                Some(s) => owned(s),
                None => owned("open"),
            },
            None => owned("open"),
        }
    }

    /// The URL of the next page of the sequential market walk.
    pub fn markets_page_url(&self, max_page_size: usize, cursor: Option<&str>) -> (r: String)
        ensures
            r@ == markets_page_url_spec(
                self.base(),
                max_page_size as nat,
                match cursor {
                    Some(c) => Some(c@),
                    None => None,
                },
            ),
    {
        let mut r = owned(self.base_url.as_str());
        r.append("/markets?limit=");
        push_decimal(&mut r, max_page_size as u64);
        match cursor {
            Some(c) => {
                r.append("&cursor=");
                r.append(c);
            },
            None => {},
        }
        r
    }

    /// The URL of the next page of one status stream.
    pub fn status_page_url(base_url: &str, status: &str, max_page_size: usize, cursor: Option<&str>) -> (r:
        String)
        ensures
            r@ == status_page_url_spec(
                base_url@,
                status@,
                max_page_size as nat,
                match cursor {
                    Some(c) => Some(c@),
                    None => None,
                },
            ),
    {
        let mut r = owned(base_url);
        r.append("/markets?status=");
        r.append(status);
        r.append("&limit=");
        push_decimal(&mut r, max_page_size as u64);
        match cursor {
            Some(c) => {
                r.append("&cursor=");
                r.append(c);
            },
            None => {},
        }
        r
    }
}

/// Splits a page body into its markets and the cursor of the next page.
pub fn take_page(body: Json) -> (r: (Vec<Json>, Option<String>))
    ensures
        r.0@ == page_markets(body),
        opt_str(r.1) == page_cursor(body),
{
    let cursor = match body.get("cursor") {
        Some(c) => match c.as_str() {
            Some(s) => if s.unicode_len() > 0 {
                Some(owned(s))
            } else {
                None
            },
            None => None,
        },
        None => None,
    };
    let ghost b = body;
    match body {
        Json::Object(mut es) => {
            let mut i: usize = 0;
            while i < es.len()
                invariant
                    i <= es.len(),
                    b == Json::Object(es),
                    b == body,
                    opt_str(cursor) == page_cursor(b),
                    member_index(es@, "markets"@, 0) == member_index(es@, "markets"@, i as int),
                decreases es.len() - i,
            {
                if crate::text::str_eq(es[i].0.as_str(), "markets") {
                    assert(member_index(es@, "markets"@, i as int) == i);
                    let ghost before = es@;
                    let (_, v) = es.remove(i);
                    assert(v == before[i as int].1);
                    assert(b.field("markets"@) == Some(v));
                    return match v {
                        Json::Array(a) => (a, cursor),
                        _ => (Vec::new(), cursor),
                    };
                }
                i = i + 1;
            }
            (Vec::new(), cursor)
        },
        _ => (Vec::new(), cursor),
    }
}

/// Whether the page just read was the last: no next cursor, or a short page.
pub fn is_last_page(cursor: &Option<String>, count: usize, max_page_size: usize) -> (r: bool)
    ensures
        r == (cursor is None || count < max_page_size),
{
    cursor.is_none() || count < max_page_size
}

/// How many times a rate-limited page is retried.
pub const MAX_RATE_LIMIT_RETRIES: u32 = 3;

/// The first wait before retrying a rate-limited page, in seconds; it
/// doubles on every retry.
pub const INITIAL_BACKOFF_SECS: u64 = 5;

/// What to do with a page response once its status is known.
#[derive(Debug)]
pub enum StatusStep {
    /// Wait, double the backoff and retry.
    Backoff,
    /// Read the body as the page.
    Parse,
    /// Read the body to tell a rate limit from an error.
    ReadBody,
}

/// What to do with the body of a failed page response.
#[derive(Debug)]
pub enum BodyStep {
    /// Wait, double the backoff and retry.
    Backoff,
    /// Give up with this error.
    Fail(KalshiError),
}

/// The step for an HTTP status on attempt `attempt` (counting from 0): a
/// 429 before the last attempt backs off, a 2xx is parsed, anything else
/// needs its body.
pub fn status_step(http_status: u16, attempt: u32) -> (r: StatusStep)
    ensures
        http_status == 429 && attempt < MAX_RATE_LIMIT_RETRIES ==> r is Backoff,
        !(http_status == 429 && attempt < MAX_RATE_LIMIT_RETRIES) && 200 <= http_status < 300
            ==> r is Parse,
        !(http_status == 429 && attempt < MAX_RATE_LIMIT_RETRIES) && !(200 <= http_status < 300)
            ==> r is ReadBody,
{
    if http_status == 429 && attempt < MAX_RATE_LIMIT_RETRIES {
        StatusStep::Backoff
    } else if 200 <= http_status && http_status < 300 {
        StatusStep::Parse
    } else {
        StatusStep::ReadBody
    }
}

/// The step for the body of a failed response on attempt `attempt`: a body
/// naming `too_many_requests` before the last attempt backs off; otherwise
/// the body is the API error.
pub fn body_step(body: &str, attempt: u32) -> (r: BodyStep)
    ensures
        contains_seq(body@, "too_many_requests"@) && attempt < MAX_RATE_LIMIT_RETRIES
            ==> r is Backoff,
        !(contains_seq(body@, "too_many_requests"@) && attempt < MAX_RATE_LIMIT_RETRIES)
            ==> (r matches BodyStep::Fail(KalshiError::Api(m)) && m@ == body@),
{
    if str_contains(body, "too_many_requests") && attempt < MAX_RATE_LIMIT_RETRIES {
        BodyStep::Backoff
    } else {
        BodyStep::Fail(KalshiError::Api(owned(body)))
    }
}

/// The page URL with a cursor is the first-page URL followed by
/// `&cursor=` and the cursor, so URLs for different cursors differ and
/// none equals the first-page URL.
pub proof fn lemma_page_url_cursor(base: Seq<char>, limit: nat, c: Seq<char>, d: Seq<char>)
    ensures
        markets_page_url_spec(base, limit, Some(c)) == markets_page_url_spec(base, limit, None) + "&cursor="@
            + c,
        markets_page_url_spec(base, limit, Some(c)) != markets_page_url_spec(base, limit, None),
        c != d ==> markets_page_url_spec(base, limit, Some(c)) != markets_page_url_spec(base, limit, Some(d)),
{
    reveal_strlit("&cursor=");
    let head = markets_page_url_spec(base, limit, None);
    let k: int = head.len() as int + 8;
    assert((head + "&cursor="@ + c).len() > head.len());
    if markets_page_url_spec(base, limit, Some(c)) == markets_page_url_spec(base, limit, Some(d)) {
        assert((head + "&cursor="@ + c).skip(k) =~= c);
        assert((head + "&cursor="@ + d).skip(k) =~= d);
    }
}

/// The URL of a status stream's page with a cursor is its first-page URL
/// followed by `&cursor=` and the cursor, so different cursors give
/// different URLs.
pub proof fn lemma_status_url_cursor(base: Seq<char>, status: Seq<char>, limit: nat, c: Seq<char>, d: Seq<char>)
    ensures
        status_page_url_spec(base, status, limit, Some(c)) == status_page_url_spec(base, status, limit, None)
            + "&cursor="@ + c,
        c != d ==> status_page_url_spec(base, status, limit, Some(c)) != status_page_url_spec(
            base,
            status,
            limit,
            Some(d),
        ),
{
    reveal_strlit("&cursor=");
    let head = status_page_url_spec(base, status, limit, None);
    let k: int = head.len() as int + 8;
    if status_page_url_spec(base, status, limit, Some(c)) == status_page_url_spec(base, status, limit, Some(d)) {
        assert((head + "&cursor="@ + c).skip(k) =~= c);
        assert((head + "&cursor="@ + d).skip(k) =~= d);
    }
}

} // verus!
