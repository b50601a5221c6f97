//! The Kalshi WebSocket protocol state: timestamps, subscription
//! bookkeeping and command payloads. The socket itself is driven outside
//! the library; each handler here decides what one message does.

use vstd::prelude::*;
use vstd::string::*;

use crate::events::WebSocketError;
use crate::json::{json_text, spec_json_text, Json};
use crate::time::{rfc3339_millis, spec_rfc3339_millis};
use crate::text::{
    decimal, i64_to_string, owned, parse_i64, parse_i64_spec, signed_decimal, str_eq,
    u64_to_string,
};

verus! {

/// A Kalshi timestamp in milliseconds: values below 10^12 are seconds,
/// larger ones already milliseconds; negative values are rejected.
pub open spec fn raw_ms(raw: int) -> Option<u64> {
    if raw < 0 {
        None
    } else if raw < 1_000_000_000_000 {
        if raw * 1000 <= i64::MAX {
            Some((raw * 1000) as u64)
        } else {
            None
        }
    } else {
        Some(raw as u64)
    }
}

/// The exchange timestamp a `ts` field carries, in milliseconds: an RFC 3339
/// string, a decimal string, or an integer, the last two read by `raw_ms`.
pub open spec fn ts_ms_of(value: Option<Json>) -> Option<u64> {
    match value {
        None => None,
        Some(v) => match v.str_of() {
            Some(s) => match spec_rfc3339_millis(s) {
                Some(ms) => if ms >= 0 {
                    Some(ms as u64)
                } else {
                    None
                },
                None => match parse_i64_spec(s) {
                    Some(raw) => raw_ms(raw as int),
                    None => None,
                },
            },
            None => match v.i64_of() {
                Some(raw) => raw_ms(raw as int),
                None => None,
            },
        },
    }
}

/// The text form of an id field: a string as is, a number as written.
pub open spec fn id_text_of(value: Option<Json>) -> Option<Seq<char>> {
    match value {
        Some(Json::Str(s)) => Some(s@),
        Some(Json::UInt(u)) => Some(decimal(u as nat)),
        Some(Json::NegInt(i)) => Some(signed_decimal(i as int)),
        Some(Json::Float(f)) => Some(f@),
        _ => None,
    }
}

/// Converts a Kalshi timestamp (seconds or milliseconds) to milliseconds.
pub fn raw_to_ms(raw: i64) -> (r: Option<u64>)
    ensures
        r == raw_ms(raw as int),
{
    if raw < 0 {
        return None;
    }
    let v = if raw < 1_000_000_000_000 {
        match raw.checked_mul(1000) {
            Some(v) => v,
            None => return None,
        }
    } else {
        raw
    };
    Some(v as u64)
}

/// Normalizes a Kalshi `ts` field into milliseconds since the epoch.
pub fn value_to_ts_ms(value: Option<&Json>) -> (r: Option<u64>)
    ensures
        r == ts_ms_of(match value {
            Some(v) => Some(*v),
            None => None,
        }),
{
    match value {
        None => None,
        Some(v) => match v.as_str() {
            Some(s) => match rfc3339_millis(s) {
                Some(ms) => if ms >= 0 {
                    Some(ms as u64)
                } else {
                    None
                },
                None => match parse_i64(s) {
                    Some(raw) => raw_to_ms(raw),
                    None => None,
                },
            },
            None => match v.as_i64() {
                Some(raw) => raw_to_ms(raw),
                None => None,
            },
        },
    }
}

/// The text form of an id field: a string as is, a number as written.
pub fn value_to_string(value: Option<&Json>) -> (r: Option<String>)
    ensures
        match r {
            Some(s) => id_text_of(match value {
                Some(v) => Some(*v),
                None => None,
            }) == Some(s@),
            None => id_text_of(match value {
                Some(v) => Some(*v),
                None => None,
            }) is None,
        },
{
    match value {
        Some(Json::Str(s)) => Some(s.clone()),
        Some(Json::UInt(u)) => Some(u64_to_string(*u)),
        Some(Json::NegInt(i)) => Some(i64_to_string(*i)),
        Some(Json::Float(f)) => Some(f.clone()),
        _ => None,
    }
}


/// The markets a list of `(market, sid)` pairs stands for.
pub open spec fn subs_map(ps: Seq<(String, Option<u64>)>) -> Map<Seq<char>, Option<u64>>
    decreases ps.len(),
{
    if ps.len() == 0 {
        Map::empty()
    } else {
        subs_map(ps.drop_last()).insert(ps.last().0@, ps.last().1)
    }
}

/// The commands a list of `(id, market)` pairs stands for.
pub open spec fn pending_map(ps: Seq<(u64, String)>) -> Map<u64, Seq<char>>
    decreases ps.len(),
{
    if ps.len() == 0 {
        Map::empty()
    } else {
        pending_map(ps.drop_last()).insert(ps.last().0, ps.last().1@)
    }
}

/// No market occurs twice.
pub open spec fn subs_distinct(ps: Seq<(String, Option<u64>)>) -> bool {
    forall|i: int, j: int| 0 <= i < j < ps.len() ==> ps[i].0@ != ps[j].0@
}

/// No command id occurs twice.
pub open spec fn pending_distinct(ps: Seq<(u64, String)>) -> bool {
    forall|i: int, j: int| 0 <= i < j < ps.len() ==> ps[i].0 != ps[j].0
}

proof fn lemma_subs_lookup(ps: Seq<(String, Option<u64>)>, i: int)
    requires
        subs_distinct(ps),
        0 <= i < ps.len(),
    ensures
        subs_map(ps).contains_key(ps[i].0@),
        subs_map(ps)[ps[i].0@] == ps[i].1,
    decreases ps.len(),
{
    if i < ps.len() - 1 {
        lemma_subs_lookup(ps.drop_last(), i);
    }
}

proof fn lemma_subs_absent(ps: Seq<(String, Option<u64>)>, k: Seq<char>)
    requires
        forall|i: int| 0 <= i < ps.len() ==> ps[i].0@ != k,
    ensures
        !subs_map(ps).contains_key(k),
    decreases ps.len(),
{
    if ps.len() > 0 {
        lemma_subs_absent(ps.drop_last(), k);
    }
}

proof fn lemma_subs_dom(ps: Seq<(String, Option<u64>)>, k: Seq<char>)
    requires
        subs_map(ps).contains_key(k),
    ensures
        exists|i: int| 0 <= i < ps.len() && ps[i].0@ == k,
    decreases ps.len(),
{
    if ps.len() > 0 && ps.last().0@ != k {
        lemma_subs_dom(ps.drop_last(), k);
        let i = choose|i: int| 0 <= i < ps.len() - 1 && ps.drop_last()[i].0@ == k;
        assert(ps[i].0@ == k);
    }
}

proof fn lemma_subs_update(ps: Seq<(String, Option<u64>)>, i: int, v: Option<u64>)
    requires
        subs_distinct(ps),
        0 <= i < ps.len(),
    ensures
        subs_map(ps.update(i, (ps[i].0, v))) == subs_map(ps).insert(ps[i].0@, v),
    decreases ps.len(),
{
    let qs = ps.update(i, (ps[i].0, v));
    if i == ps.len() - 1 {
        assert(qs.drop_last() =~= ps.drop_last());
        lemma_subs_absent(ps.drop_last(), ps[i].0@);
        assert(subs_map(qs) =~= subs_map(ps).insert(ps[i].0@, v));
    } else {
        assert(qs.drop_last() =~= ps.drop_last().update(i, (ps[i].0, v)));
        lemma_subs_update(ps.drop_last(), i, v);
        assert(subs_map(qs) =~= subs_map(ps).insert(ps[i].0@, v));
    }
}

proof fn lemma_subs_remove(ps: Seq<(String, Option<u64>)>, i: int)
    requires
        subs_distinct(ps),
        0 <= i < ps.len(),
    ensures
        subs_map(ps.remove(i)) == subs_map(ps).remove(ps[i].0@),
        subs_distinct(ps.remove(i)),
    decreases ps.len(),
{
    let qs = ps.remove(i);
    if i == ps.len() - 1 {
        assert(qs =~= ps.drop_last());
        lemma_subs_absent(ps.drop_last(), ps[i].0@);
        assert(subs_map(qs) =~= subs_map(ps).remove(ps[i].0@));
    } else {
        assert(qs.drop_last() =~= ps.drop_last().remove(i));
        lemma_subs_remove(ps.drop_last(), i);
        assert(qs.last() == ps.last());
        assert(subs_map(qs) =~= subs_map(ps).remove(ps[i].0@));
    }
}

proof fn lemma_pending_lookup(ps: Seq<(u64, String)>, i: int)
    requires
        pending_distinct(ps),
        0 <= i < ps.len(),
    ensures
        pending_map(ps).contains_key(ps[i].0),
        pending_map(ps)[ps[i].0] == ps[i].1@,
    decreases ps.len(),
{
    if i < ps.len() - 1 {
        lemma_pending_lookup(ps.drop_last(), i);
    }
}

proof fn lemma_pending_absent(ps: Seq<(u64, String)>, k: u64)
    requires
        forall|i: int| 0 <= i < ps.len() ==> ps[i].0 != k,
    ensures
        !pending_map(ps).contains_key(k),
    decreases ps.len(),
{
    if ps.len() > 0 {
        lemma_pending_absent(ps.drop_last(), k);
    }
}

proof fn lemma_pending_remove(ps: Seq<(u64, String)>, i: int)
    requires
        pending_distinct(ps),
        0 <= i < ps.len(),
    ensures
        pending_map(ps.remove(i)) == pending_map(ps).remove(ps[i].0),
        pending_distinct(ps.remove(i)),
    decreases ps.len(),
{
    let qs = ps.remove(i);
    if i == ps.len() - 1 {
        assert(qs =~= ps.drop_last());
        lemma_pending_absent(ps.drop_last(), ps[i].0);
        assert(pending_map(qs) =~= pending_map(ps).remove(ps[i].0));
    } else {
        assert(qs.drop_last() =~= ps.drop_last().remove(i));
        lemma_pending_remove(ps.drop_last(), i);
        assert(qs.last() == ps.last());
        assert(pending_map(qs) =~= pending_map(ps).remove(ps[i].0));
    }
}

/// The subscription bookkeeping of a Kalshi WebSocket: every market asked
/// for, with the server's subscription id once acknowledged, and the
/// subscribe commands still awaiting their acknowledgement.
pub struct KalshiSubscriptions {
    subs: Vec<(String, Option<u64>)>,
    pending: Vec<(u64, String)>,
    command_id: u64,
}

impl KalshiSubscriptions {
    #[verifier::type_invariant]
    closed spec fn wf(self) -> bool {
        subs_distinct(self.subs@) && pending_distinct(self.pending@)
    }

    /// Subscribed markets, each with its subscription id once acknowledged.
    pub closed spec fn markets(&self) -> Map<Seq<char>, Option<u64>> {
        subs_map(self.subs@)
    }

    /// Subscribe commands awaiting acknowledgement, by command id.
    pub closed spec fn pending(&self) -> Map<u64, Seq<char>> {
        pending_map(self.pending@)
    }

    /// The id of the last command sent (0 before any).
    pub closed spec fn last_command(&self) -> u64 {
        self.command_id
    }

    /// Nothing subscribed, nothing pending, no command sent.
    pub fn new() -> (r: Self)
        ensures
            r.markets() == Map::<Seq<char>, Option<u64>>::empty(),
            r.pending() == Map::<u64, Seq<char>>::empty(),
            r.last_command() == 0,
    {
        KalshiSubscriptions { subs: Vec::new(), pending: Vec::new(), command_id: 0 }
    }

    fn find_market(&self, market: &str) -> (r: Option<usize>)
        requires
            subs_distinct(self.subs@),
        ensures
            match r {
                Some(i) => i < self.subs@.len() && self.subs@[i as int].0@ == market@,
                None => forall|i: int| 0 <= i < self.subs@.len() ==> self.subs@[i].0@ != market@,
            },
    {
        let mut i: usize = 0;
        while i < self.subs.len()
            invariant
                i <= self.subs.len(),
                forall|j: int| 0 <= j < i ==> self.subs@[j].0@ != market@,
            decreases self.subs.len() - i,
        {
            if str_eq(self.subs[i].0.as_str(), market) {
                return Some(i);
            }
            i = i + 1;
        }
        None
    }

    /// Whether `market` is subscribed.
    pub fn contains(&self, market: &str) -> (r: bool)
        ensures
            r == self.markets().contains_key(market@),
    {
        proof {
            use_type_invariant(self);
        }
        match self.find_market(market) {
            Some(i) => {
                proof {
                    lemma_subs_lookup(self.subs@, i as int);
                }
                true
            },
            None => {
                proof {
                    lemma_subs_absent(self.subs@, market@);
                }
                false
            },
        }
    }

    /// Records `market` as wanted; a market already recorded keeps its
    /// subscription id.
    pub fn subscribe(&mut self, market: &str)
        ensures
            final(self).markets() == if old(self).markets().contains_key(market@) {
                old(self).markets()
            } else {
                old(self).markets().insert(market@, None)
            },
            final(self).pending() == old(self).pending(),
            final(self).last_command() == old(self).last_command(),
    {
        proof {
            use_type_invariant(&*self);
        }
        match self.find_market(market) {
            Some(i) => {
                proof {
                    lemma_subs_lookup(self.subs@, i as int);
                }
            },
            None => {
                proof {
                    lemma_subs_absent(self.subs@, market@);
                }
                let ghost before = self.subs@;
                let mut subs: Vec<(String, Option<u64>)> = Vec::new();
                std::mem::swap(&mut subs, &mut self.subs);
                subs.push((owned(market), None));
                proof {
                    assert(subs@.drop_last() =~= before);
                    assert(subs_distinct(subs@));
                }
                self.subs = subs;
            },
        }
    }

    /// Forgets `market`; gives its subscription id when it had one, which
    /// the caller then unsubscribes.
    pub fn unsubscribe(&mut self, market: &str) -> (r: Option<u64>)
        ensures
            final(self).markets() == old(self).markets().remove(market@),
            r == if old(self).markets().contains_key(market@) {
                old(self).markets()[market@]
            } else {
                None
            },
            final(self).pending() == old(self).pending(),
            final(self).last_command() == old(self).last_command(),
    {
        proof {
            use_type_invariant(&*self);
        }
        match self.find_market(market) {
            Some(i) => {
                proof {
                    lemma_subs_lookup(self.subs@, i as int);
                    lemma_subs_remove(self.subs@, i as int);
                }
                let mut subs: Vec<(String, Option<u64>)> = Vec::new();
                std::mem::swap(&mut subs, &mut self.subs);
                let (_, sid) = subs.remove(i);
                self.subs = subs;
                sid
            },
            None => {
                proof {
                    lemma_subs_absent(self.subs@, market@);
                    assert(subs_map(self.subs@).remove(market@) =~= subs_map(self.subs@));
                }
                None
            },
        }
    }

    /// The next command id: one past the last, wrapping at `u64::MAX`.
    pub fn next_command_id(&mut self) -> (r: u64)
        ensures
            r == (if old(self).last_command() == u64::MAX {
                0
            } else {
                (old(self).last_command() + 1) as u64
            }),
            final(self).last_command() == r,
            final(self).markets() == old(self).markets(),
            final(self).pending() == old(self).pending(),
    {
        proof {
            use_type_invariant(&*self);
        }
        self.command_id = self.command_id.wrapping_add(1);
        self.command_id
    }

    /// Records the subscribe command `id` for `market` as awaiting its
    /// acknowledgement; a command already pending under `id` is replaced.
    pub fn add_pending(&mut self, id: u64, market: &str)
        ensures
            final(self).pending() == old(self).pending().insert(id, market@),
            final(self).markets() == old(self).markets(),
            final(self).last_command() == old(self).last_command(),
    {
        proof {
            use_type_invariant(&*self);
        }
        let _ = self.take_pending(id);
        proof {
            use_type_invariant(&*self);
        }
        let ghost before = self.pending@;
        proof {
            assert forall|i: int| 0 <= i < before.len() implies before[i].0 != id by {
                if before[i].0 == id {
                    lemma_pending_lookup(before, i);
                }
            }
        }
        let mut pending: Vec<(u64, String)> = Vec::new();
        std::mem::swap(&mut pending, &mut self.pending);
        pending.push((id, owned(market)));
        proof {
            assert(pending@.drop_last() =~= before);
            assert(pending_distinct(pending@));
            assert(pending_map(pending@) =~= pending_map(before).insert(id, market@));
        }
        self.pending = pending;
    }

    /// Removes the pending command `id`, giving the market it was for.
    pub fn take_pending(&mut self, id: u64) -> (r: Option<String>)
        ensures
            final(self).pending() == old(self).pending().remove(id),
            !final(self).pending().contains_key(id),
            match r {
                Some(m) => old(self).pending().contains_key(id) && old(self).pending()[id] == m@,
                None => !old(self).pending().contains_key(id),
            },
            final(self).markets() == old(self).markets(),
            final(self).last_command() == old(self).last_command(),
    {
        proof {
            use_type_invariant(&*self);
        }
        let mut i: usize = 0;
        while i < self.pending.len()
            invariant
                i <= self.pending.len(),
                pending_distinct(self.pending@),
                subs_distinct(self.subs@),
                self.pending@ == old(self).pending@,
                self.subs@ == old(self).subs@,
                self.command_id == old(self).command_id,
                forall|j: int| 0 <= j < i ==> self.pending@[j].0 != id,
            decreases self.pending.len() - i,
        {
            if self.pending[i].0 == id {
                proof {
                    lemma_pending_lookup(self.pending@, i as int);
                    lemma_pending_remove(self.pending@, i as int);
                }
                let mut pending: Vec<(u64, String)> = Vec::new();
                std::mem::swap(&mut pending, &mut self.pending);
                let (_, market) = pending.remove(i);
                self.pending = pending;
                return Some(market);
            }
            i = i + 1;
        }
        proof {
            lemma_pending_absent(self.pending@, id);
            assert(pending_map(self.pending@).remove(id) =~= pending_map(self.pending@));
        }
        None
    }

    /// Records `sid` as `market`'s subscription id.
    fn set_sid(&mut self, market: String, sid: Option<u64>)
        ensures
            final(self).markets() == old(self).markets().insert(market@, sid),
            final(self).pending() == old(self).pending(),
            final(self).last_command() == old(self).last_command(),
    {
        proof {
            use_type_invariant(&*self);
        }
        match self.find_market(market.as_str()) {
            Some(i) => {
                proof {
                    lemma_subs_update(self.subs@, i as int, sid);
                }
                let ghost before = self.subs@;
                let mut subs: Vec<(String, Option<u64>)> = Vec::new();
                std::mem::swap(&mut subs, &mut self.subs);
                let key = subs[i].0.clone();
                subs.set(i, (key, sid));
                proof {
                    assert(subs@ =~= before.update(i as int, (before[i as int].0, sid)));
                    assert(subs_distinct(subs@));
                }
                self.subs = subs;
            },
            None => {
                proof {
                    lemma_subs_absent(self.subs@, market@);
                }
                let ghost before = self.subs@;
                let mut subs: Vec<(String, Option<u64>)> = Vec::new();
                std::mem::swap(&mut subs, &mut self.subs);
                subs.push((market, sid));
                proof {
                    assert(subs@.drop_last() =~= before);
                    assert(subs_distinct(subs@));
                }
                self.subs = subs;
            },
        }
    }
}


/// A Kalshi socket connects only with an API key id and a request signer;
/// without either it is refused with `authentication required`.
pub fn check_credentials(has_key_id: bool, has_signer: bool) -> (r: Result<(), WebSocketError>)
    ensures
        r is Ok <==> has_key_id && has_signer,
        r matches Err(e) ==> (e matches WebSocketError::Connection(m) && m@ == "authentication required"@),
{
    if has_key_id && has_signer {
        Ok(())
    } else {
        Err(WebSocketError::Connection(owned("authentication required")))
    }
}

/// Whether `j` is the string `s`.
pub open spec fn is_str(j: Json, s: Seq<char>) -> bool {
    j is Str && j->Str_0@ == s
}

/// The channels a subscription asks for: order book deltas and trades, and
/// the user's fills when enabled.
pub open spec fn channels_of(fills: bool) -> Seq<Seq<char>> {
    if fills {
        seq!["orderbook_delta"@, "trade"@, "fill"@]
    } else {
        seq!["orderbook_delta"@, "trade"@]
    }
}

/// `j` is `{"id": id, "cmd": "subscribe", "params": {"channels": [..],
/// "market_id": market}}`.
pub open spec fn is_subscribe_cmd(j: Json, id: u64, market: Seq<char>, fills: bool) -> bool {
    &&& j is Object
    &&& j->Object_0@.len() == 3
    &&& j->Object_0@[0].0@ == "id"@ && j->Object_0@[0].1 == Json::UInt(id)
    &&& j->Object_0@[1].0@ == "cmd"@ && is_str(j->Object_0@[1].1, "subscribe"@)
    &&& j->Object_0@[2].0@ == "params"@
    &&& {
        let p = j->Object_0@[2].1;
        &&& p is Object
        &&& p->Object_0@.len() == 2
        &&& p->Object_0@[0].0@ == "channels"@
        &&& p->Object_0@[0].1 is Array
        &&& p->Object_0@[0].1->Array_0@.len() == channels_of(fills).len()
        &&& forall|i: int|
            0 <= i < channels_of(fills).len() ==> is_str(
                #[trigger] p->Object_0@[0].1->Array_0@[i],
                channels_of(fills)[i],
            )
        &&& p->Object_0@[1].0@ == "market_id"@ && is_str(p->Object_0@[1].1, market)
    }
}

/// `j` is `{"id": id, "cmd": "unsubscribe", "params": {"sids": [sid]}}`.
pub open spec fn is_unsubscribe_cmd(j: Json, id: u64, sid: u64) -> bool {
    &&& j is Object
    &&& j->Object_0@.len() == 3
    &&& j->Object_0@[0].0@ == "id"@ && j->Object_0@[0].1 == Json::UInt(id)
    &&& j->Object_0@[1].0@ == "cmd"@ && is_str(j->Object_0@[1].1, "unsubscribe"@)
    &&& j->Object_0@[2].0@ == "params"@
    &&& {
        let p = j->Object_0@[2].1;
        &&& p is Object
        &&& p->Object_0@.len() == 1
        &&& p->Object_0@[0].0@ == "sids"@
        &&& p->Object_0@[0].1 is Array
        &&& p->Object_0@[0].1->Array_0@.len() == 1
        &&& p->Object_0@[0].1->Array_0@[0] == Json::UInt(sid)
    }
}

/// The JSON string `s`.
fn jstr(s: &str) -> (r: Json)
    ensures
        is_str(r, s@),
{
    Json::Str(owned(s))
}

/// The subscribe command `id` for `market`.
pub fn subscribe_command(id: u64, market: &str, enable_user_fills: bool) -> (r: Json)
    ensures
        is_subscribe_cmd(r, id, market@, enable_user_fills),
{
    let mut channels: Vec<Json> = Vec::new();
    channels.push(jstr("orderbook_delta"));
    channels.push(jstr("trade"));
    if enable_user_fills {
        channels.push(jstr("fill"));
    }
    let mut params: Vec<(String, Json)> = Vec::new();
    params.push((owned("channels"), Json::Array(channels)));
    params.push((owned("market_id"), jstr(market)));
    let mut top: Vec<(String, Json)> = Vec::new();
    top.push((owned("id"), Json::UInt(id)));
    top.push((owned("cmd"), jstr("subscribe")));
    top.push((owned("params"), Json::Object(params)));
    let r = Json::Object(top);
    proof {
        let p = r->Object_0@[2].1;
        assert forall|i: int| 0 <= i < channels_of(enable_user_fills).len() implies is_str(
            #[trigger] p->Object_0@[0].1->Array_0@[i],
            channels_of(enable_user_fills)[i],
        ) by {
            if i == 0 {
            } else if i == 1 {
            } else {
            }
        }
    }
    r
}

/// The unsubscribe command `id` for subscription `sid`.
pub fn unsubscribe_command(id: u64, sid: u64) -> (r: Json)
    ensures
        is_unsubscribe_cmd(r, id, sid),
{
    let mut sids: Vec<Json> = Vec::new();
    sids.push(Json::UInt(sid));
    let mut params: Vec<(String, Json)> = Vec::new();
    params.push((owned("sids"), Json::Array(sids)));
    let mut top: Vec<(String, Json)> = Vec::new();
    top.push((owned("id"), Json::UInt(id)));
    top.push((owned("cmd"), jstr("unsubscribe")));
    top.push((owned("params"), Json::Object(params)));
    Json::Object(top)
}

/// The command id and subscription id a `subscribed` acknowledgement
/// carries (`id`, and `sid` inside `msg`).
pub open spec fn ack_ids(value: Json) -> Option<(u64, u64)> {
    match value.field("id"@) {
        Some(i) => match i.u64_of() {
            Some(id) => match value.field("msg"@) {
                Some(m) => match m.field("sid"@) {
                    Some(s) => match s.u64_of() {
                        Some(sid) => Some((id, sid)),
                        None => None,
                    },
                    None => None,
                },
                None => None,
            },
            None => None,
        },
        None => None,
    }
}

/// The subscription id an `unsubscribed` message carries.
pub open spec fn unsub_sid(value: Json) -> Option<u64> {
    match value.field("sid"@) {
        Some(s) => s.u64_of(),
        None => None,
    }
}

/// The `(code, msg)` of an error payload, read as a struct with an `i64`
/// `code` and a string `msg`: from an object with those members (others
/// ignored), or from a two-element array in that order.
pub open spec fn error_payload(p: Json) -> Option<(i64, Seq<char>)> {
    match p {
        Json::Object(_) => match (p.field("code"@), p.field("msg"@)) {
            (Some(c), Some(m)) => match (c.i64_of(), m.str_of()) {
                (Some(code), Some(msg)) => Some((code, msg)),
                _ => None,
            },
            _ => None,
        },
        Json::Array(items) => if items@.len() == 2 {
            match (items@[0].i64_of(), items@[1].str_of()) {
                (Some(code), Some(msg)) => Some((code, msg)),
                _ => None,
            }
        } else {
            None
        },
        _ => None,
    }
}

/// The text of a subscription error reported by the server.
pub open spec fn ws_error_detail(code: i64, msg: Seq<char>) -> Seq<char> {
    "kalshi ws error "@ + signed_decimal(code as int) + ": "@ + msg
}

/// Reads an error payload; see `error_payload`.
fn read_error_payload(p: &Json) -> (r: Option<(i64, String)>)
    ensures
        match r {
            Some((code, msg)) => error_payload(*p) == Some((code, msg@)),
            None => error_payload(*p) is None,
        },
{
    match p {
        Json::Object(_) => match (p.get("code"), p.get("msg")) {
            (Some(c), Some(m)) => match (c.as_i64(), m.as_str()) {
                (Some(code), Some(msg)) => Some((code, owned(msg))),
                _ => None,
            },
            _ => None,
        },
        Json::Array(items) => if items.len() == 2 {
            match (items[0].as_i64(), items[1].as_str()) {
                (Some(code), Some(msg)) => Some((code, owned(msg))),
                _ => None,
            }
        } else {
            None
        },
        _ => None,
    }
}

impl KalshiSubscriptions {
    /// Allocates the next command id, records it as pending for `market`,
    /// and gives the subscribe command to send.
    pub fn begin_subscribe(&mut self, market: &str, enable_user_fills: bool) -> (r: String)
        ensures
            final(self).last_command() == (if old(self).last_command() == u64::MAX {
                0
            } else {
                (old(self).last_command() + 1) as u64
            }),
            final(self).pending() == old(self).pending().insert(
                final(self).last_command(),
                market@,
            ),
            final(self).markets() == old(self).markets(),
            exists|j: Json|
                is_subscribe_cmd(j, final(self).last_command(), market@, enable_user_fills) && r@
                    == spec_json_text(j),
    {
        let id = self.next_command_id();
        let cmd = subscribe_command(id, market, enable_user_fills);
        self.add_pending(id, market);
        json_text(&cmd)
    }

    /// Allocates the next command id and gives the command that
    /// unsubscribes `sid`.
    pub fn begin_unsubscribe(&mut self, sid: u64) -> (r: String)
        ensures
            final(self).last_command() == (if old(self).last_command() == u64::MAX {
                0
            } else {
                (old(self).last_command() + 1) as u64
            }),
            final(self).pending() == old(self).pending(),
            final(self).markets() == old(self).markets(),
            exists|j: Json| is_unsubscribe_cmd(j, final(self).last_command(), sid) && r@
                == spec_json_text(j),
    {
        let id = self.next_command_id();
        let cmd = unsubscribe_command(id, sid);
        json_text(&cmd)
    }

    /// A `subscribed` acknowledgement: the pending command it names is done
    /// and its market now has the subscription id it carries.
    pub fn on_subscribed(&mut self, value: &Json)
        ensures
            match ack_ids(*value) {
                Some((id, sid)) => if old(self).pending().contains_key(id) {
                    &&& final(self).pending() == old(self).pending().remove(id)
                    &&& final(self).markets() == old(self).markets().insert(
                        old(self).pending()[id],
                        Some(sid),
                    )
                } else {
                    &&& final(self).pending() == old(self).pending()
                    &&& final(self).markets() == old(self).markets()
                },
                None => {
                    &&& final(self).pending() == old(self).pending()
                    &&& final(self).markets() == old(self).markets()
                },
            },
            final(self).last_command() == old(self).last_command(),
    {
        let id = match value.get("id") {
            Some(i) => i.as_u64(),
            None => None,
        };
        let sid = match value.get("msg") {
            Some(m) => match m.get("sid") {
                Some(s) => s.as_u64(),
                None => None,
            },
            None => None,
        };
        match (id, sid) {
            (Some(id), Some(sid)) => {
                match self.take_pending(id) {
                    Some(market) => self.set_sid(market, Some(sid)),
                    None => {
                        assert(old(self).pending().remove(id) =~= old(self).pending());
                    },
                }
            },
            _ => {},
        }
    }

    /// An `unsubscribed` message: some market holding the subscription id
    /// it carries is forgotten.
    pub fn on_unsubscribed(&mut self, value: &Json)
        ensures
            match unsub_sid(*value) {
                Some(sid) => if exists|k: Seq<char>|
                    old(self).markets().contains_key(k) && old(self).markets()[k] == Some(sid) {
                    exists|k: Seq<char>|
                        old(self).markets().contains_key(k) && old(self).markets()[k] == Some(sid)
                            && final(self).markets() == old(self).markets().remove(k)
                } else {
                    final(self).markets() == old(self).markets()
                },
                None => final(self).markets() == old(self).markets(),
            },
            final(self).pending() == old(self).pending(),
            final(self).last_command() == old(self).last_command(),
    {
        proof {
            use_type_invariant(&*self);
        }
        let sid = match value.get("sid") {
            Some(s) => s.as_u64(),
            None => None,
        };
        match sid {
            Some(sid) => {
                let mut i: usize = 0;
                while i < self.subs.len()
                    invariant
                        i <= self.subs.len(),
                        subs_distinct(self.subs@),
                        pending_distinct(self.pending@),
                        self.subs@ == old(self).subs@,
                        self.pending@ == old(self).pending@,
                        self.command_id == old(self).command_id,
                        unsub_sid(*value) == Some(sid),
                        forall|j: int| 0 <= j < i ==> self.subs@[j].1 != Some(sid),
                    decreases self.subs.len() - i,
                {
                    let hit = match self.subs[i].1 {
                        Some(x) => x == sid,
                        None => false,
                    };
                    if hit {
                        proof {
                            lemma_subs_lookup(self.subs@, i as int);
                            lemma_subs_remove(self.subs@, i as int);
                        }
                        let ghost k = self.subs@[i as int].0@;
                        let mut subs: Vec<(String, Option<u64>)> = Vec::new();
                        std::mem::swap(&mut subs, &mut self.subs);
                        let _ = subs.remove(i);
                        self.subs = subs;
                        assert(old(self).markets().contains_key(k) && old(self).markets()[k] == Some(
                            sid,
                        ) && self.markets() == old(self).markets().remove(k));
                        return;
                    }
                    i = i + 1;
                }
                proof {
                    assert forall|k: Seq<char>|
                        old(self).markets().contains_key(k) implies old(self).markets()[k] != Some(
                        sid,
                    ) by {
                        lemma_subs_dom(self.subs@, k);
                        let j = choose|j: int| 0 <= j < self.subs@.len() && self.subs@[j].0@ == k;
                        lemma_subs_lookup(self.subs@, j);
                    }
                }
            },
            None => {},
        }
    }

    /// An `error` message: when its payload reads and its command is
    /// pending, that command is done and the market it was for is given
    /// back with the error to report; otherwise nothing changes.
    pub fn on_error(&mut self, value: &Json) -> (r: Option<(String, WebSocketError)>)
        ensures
            ({
                let id = match value.field("id"@) {
                    Some(i) => i.u64_of(),
                    None => None,
                };
                let payload = match value.field("msg"@) {
                    Some(m) => error_payload(m),
                    None => None,
                };
                if payload is Some && id is Some && old(self).pending().contains_key(id->0) {
                    &&& final(self).pending() == old(self).pending().remove(id->0)
                    &&& r matches Some((market, WebSocketError::Subscription(text)))
                    &&& market@ == old(self).pending()[id->0]
                    &&& text@ == ws_error_detail(payload.unwrap().0, payload.unwrap().1)
                } else {
                    &&& r is None
                    &&& final(self).pending() == old(self).pending()
                }
            }),
            final(self).markets() == old(self).markets(),
            final(self).last_command() == old(self).last_command(),
    {
        let id = match value.get("id") {
            Some(i) => i.as_u64(),
            None => None,
        };
        let payload = match value.get("msg") {
            Some(m) => read_error_payload(m),
            None => None,
        };
        match (payload, id) {
            (Some((code, msg)), Some(id)) => match self.take_pending(id) {
                Some(market) => {
                    let mut text = owned("kalshi ws error ");
                    let c = i64_to_string(code);
                    text.append(c.as_str());
                    text.append(": ");
                    text.append(msg.as_str());
                    Some((market, WebSocketError::Subscription(text)))
                },
                None => {
                    assert(old(self).pending().remove(id) =~= old(self).pending());
                    None
                },
            },
            _ => None,
        }
    }

    /// Prepares a resubscription after a reconnect: every market loses its
    /// subscription id, and the markets are listed for subscribing anew.
    pub fn reset_for_resubscribe(&mut self) -> (r: Vec<String>)
        ensures
            final(self).markets().dom() == old(self).markets().dom(),
            forall|k: Seq<char>| #[trigger]
                final(self).markets().contains_key(k) ==> final(self).markets()[k] is None,
            r@.len() == old(self).markets().dom().len(),
            forall|i: int| 0 <= i < r@.len() ==> old(self).markets().contains_key(#[trigger] r@[i]@),
            forall|i: int, j: int| 0 <= i < j < r@.len() ==> r@[i]@ != r@[j]@,
            final(self).pending() == old(self).pending(),
            final(self).last_command() == old(self).last_command(),
    {
        proof {
            use_type_invariant(&*self);
        }
        let ghost before = self.subs@;
        let mut markets: Vec<String> = Vec::new();
        let mut cleared: Vec<(String, Option<u64>)> = Vec::new();
        let mut i: usize = 0;
        while i < self.subs.len()
            invariant
                i <= self.subs.len(),
                self.subs@ == before,
                subs_distinct(before),
                markets@.len() == i,
                cleared@.len() == i,
                forall|j: int| 0 <= j < i ==> (#[trigger] markets@[j])@ == before[j].0@,
                forall|j: int|
                    0 <= j < i ==> (#[trigger] cleared@[j]).0@ == before[j].0@ && cleared@[j].1 is None,
            decreases self.subs.len() - i,
        {
            markets.push(self.subs[i].0.clone());
            cleared.push((self.subs[i].0.clone(), None));
            i = i + 1;
        }
        proof {
            lemma_cleared(cleared@, before);
            assert forall|a: int| 0 <= a < markets@.len() implies old(self).markets().contains_key(
                #[trigger] markets@[a]@,
            ) by {
                lemma_subs_lookup(before, a);
            }
            lemma_subs_dom_len(before);
        }
        self.subs = cleared;
        markets
    }
}

/// The id of the `n`-th command after the command `last`, counting with
/// wrap-around at `u64::MAX`.
pub open spec fn command_after(last: u64, n: int) -> u64 {
    ((last + n) % 0x1_0000_0000_0000_0000) as u64
}

proof fn lemma_command_step(last: u64, n: int)
    requires
        n >= 0,
    ensures
        (if command_after(last, n) == u64::MAX {
            0
        } else {
            (command_after(last, n) + 1) as u64
        }) == command_after(last, n + 1),
{
    let m: int = 0x1_0000_0000_0000_0000;
    let x: int = last + n;
    vstd::arithmetic::div_mod::lemma_fundamental_div_mod(x, m);
    vstd::arithmetic::div_mod::lemma_fundamental_div_mod(x + 1, m);
    vstd::arithmetic::div_mod::lemma_mod_bound(x, m);
    vstd::arithmetic::div_mod::lemma_mod_bound(x + 1, m);
}

proof fn lemma_commands_differ(last: u64, a: int, b: int)
    requires
        0 < a < b < 0x1_0000_0000_0000_0000 + a,
    ensures
        command_after(last, a) != command_after(last, b),
{
    let m: int = 0x1_0000_0000_0000_0000;
    vstd::arithmetic::div_mod::lemma_fundamental_div_mod(last + a, m);
    vstd::arithmetic::div_mod::lemma_fundamental_div_mod(last + b, m);
    vstd::arithmetic::div_mod::lemma_mod_bound(last + a, m);
    vstd::arithmetic::div_mod::lemma_mod_bound(last + b, m);
}

/// `t` is the text of a subscribe command `id` for `market`.
pub open spec fn is_subscribe_text(t: Seq<char>, id: u64, market: Seq<char>, fills: bool) -> bool {
    exists|c: Json| is_subscribe_cmd(c, id, market, fills) && t == spec_json_text(c)
}

impl KalshiSubscriptions {
    /// Subscribes every recorded market anew, as a connection that has just
    /// opened does: each market loses its subscription id, and gets one
    /// subscribe command with the next command id, recorded as pending.
    /// Gives the markets and, in the same order, their commands.
    pub fn resubscribe_all(&mut self, enable_user_fills: bool) -> (r: (Vec<String>, Vec<String>))
        ensures
            final(self).markets().dom() == old(self).markets().dom(),
            forall|k: Seq<char>| #[trigger]
                final(self).markets().contains_key(k) ==> final(self).markets()[k] is None,
            r.0@.len() == old(self).markets().dom().len(),
            r.1@.len() == r.0@.len(),
            forall|i: int| 0 <= i < r.0@.len() ==> old(self).markets().contains_key(#[trigger] r.0@[i]@),
            forall|i: int, j: int| 0 <= i < j < r.0@.len() ==> r.0@[i]@ != r.0@[j]@,
            forall|i: int|
                0 <= i < r.1@.len() ==> is_subscribe_text(
                    (#[trigger] r.1@[i])@,
                    command_after(old(self).last_command(), i + 1),
                    r.0@[i]@,
                    enable_user_fills,
                ),
            forall|i: int|
                0 <= i < r.1@.len() ==> final(self).pending().contains_key(
                    #[trigger] command_after(old(self).last_command(), i + 1),
                ) && final(self).pending()[command_after(old(self).last_command(), i + 1)] == r.0@[i]@,
            final(self).last_command() == command_after(old(self).last_command(), r.0@.len() as int),
    {
        let markets = self.reset_for_resubscribe();
        let ghost last = old(self).last_command();
        let ghost dom = self.markets().dom();
        proof {
            vstd::arithmetic::div_mod::lemma_fundamental_div_mod(last as int, 0x1_0000_0000_0000_0000);
            vstd::arithmetic::div_mod::lemma_mod_bound(last as int, 0x1_0000_0000_0000_0000);
            assert(last == command_after(last, 0));
        }
        let mut commands: Vec<String> = Vec::new();
        let mut i: usize = 0;
        while i < markets.len()
            invariant
                i <= markets@.len(),
                commands@.len() == i,
                self.markets().dom() == dom,
                forall|k: Seq<char>| #[trigger] self.markets().contains_key(k) ==> self.markets()[k] is None,
                self.last_command() == command_after(last, i as int),
                forall|j: int|
                    0 <= j < i ==> is_subscribe_text(
                        (#[trigger] commands@[j])@,
                        command_after(last, j + 1),
                        markets@[j]@,
                        enable_user_fills,
                    ),
                forall|j: int|
                    0 <= j < i ==> self.pending().contains_key(#[trigger] command_after(last, j + 1))
                        && self.pending()[command_after(last, j + 1)] == markets@[j]@,
            decreases markets.len() - i,
        {
            proof {
                lemma_command_step(last, i as int);
            }
            let ghost before = self.pending();
            let text = self.begin_subscribe(markets[i].as_str(), enable_user_fills);
            proof {
                assert forall|j: int| 0 <= j < i implies self.pending().contains_key(
                    #[trigger] command_after(last, j + 1),
                ) && self.pending()[command_after(last, j + 1)] == markets@[j]@ by {
                    lemma_commands_differ(last, j + 1, i + 1);
                    assert(before.contains_key(command_after(last, j + 1)));
                }
            }
            assert(is_subscribe_text(text@, command_after(last, i + 1), markets@[i as int]@, enable_user_fills));
            commands.push(text);
            i = i + 1;
        }
        (markets, commands)
    }
}

proof fn lemma_cleared(c: Seq<(String, Option<u64>)>, b: Seq<(String, Option<u64>)>)
    requires
        c.len() == b.len(),
        subs_distinct(b),
        forall|j: int|
            0 <= j < c.len() ==> (#[trigger] c[j]).0@ == b[j].0@ && c[j].1 is None,
    ensures
        subs_distinct(c),
        subs_map(c).dom() == subs_map(b).dom(),
        forall|k: Seq<char>| #[trigger] subs_map(c).contains_key(k) ==> subs_map(c)[k] is None,
    decreases c.len(),
{
    if c.len() > 0 {
        lemma_cleared(c.drop_last(), b.drop_last());
        assert(subs_map(c).dom() =~= subs_map(b).dom());
    }
}

proof fn lemma_subs_dom_len(ps: Seq<(String, Option<u64>)>)
    requires
        subs_distinct(ps),
    ensures
        subs_map(ps).dom().finite(),
        subs_map(ps).dom().len() == ps.len(),
    decreases ps.len(),
{
    if ps.len() > 0 {
        lemma_subs_dom_len(ps.drop_last());
        lemma_subs_absent(ps.drop_last(), ps.last().0@);
    }
}

/// An acknowledged subscription ends the pending command and binds its
/// market to the acknowledged subscription id; an unknown acknowledgement
/// changes nothing.
pub proof fn lemma_ack_binds_market(
    pending: Map<u64, Seq<char>>,
    markets: Map<Seq<char>, Option<u64>>,
    id: u64,
    sid: u64,
)
    requires
        pending.contains_key(id),
    ensures
        !pending.remove(id).contains_key(id),
        markets.insert(pending[id], Some(sid)).contains_key(pending[id]),
        markets.insert(pending[id], Some(sid))[pending[id]] == Some(sid),
{
}

} // verus!
