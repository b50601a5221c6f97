//! Crypto price feeds: topics, subscription commands and their replay,
//! and the reading of pushed prices. The socket runs outside.

use vstd::prelude::*;
use vstd::string::*;

use crate::json::{json_text, members_view, opt_view, parse_json, spec_json_text, spec_parse_json, str_field, views, Json, Scalar};
use crate::text::{owned, str_eq};

verus! {

/// The price feed URL.
pub const CRYPTO_WS_URL: &'static str = "wss://ws-live-data.polymarket.com";

/// How many prices a slow reader may fall behind.
pub const BROADCAST_CAPACITY: usize = 16384;

/// Where a price comes from.
#[derive(Debug, Clone, Copy, PartialEq, Eq, Structural)]
pub enum CryptoPriceSource {
    Binance,
    Chainlink,
}

/// The topic of a source.
pub open spec fn topic_of(source: CryptoPriceSource) -> Seq<char> {
    match source {
        CryptoPriceSource::Binance => "crypto_prices"@,
        CryptoPriceSource::Chainlink => "crypto_prices_chainlink"@,
    }
}

/// The source of a topic, if it is one.
pub open spec fn source_of_topic(topic: Seq<char>) -> Option<CryptoPriceSource> {
    if topic == "crypto_prices"@ {
        Some(CryptoPriceSource::Binance)
    } else if topic == "crypto_prices_chainlink"@ {
        Some(CryptoPriceSource::Chainlink)
    } else {
        None
    }
}

/// The topic a source publishes on.
pub fn topic_for_source(source: CryptoPriceSource) -> (r: &'static str)
    ensures
        r@ == topic_of(source),
{
    match source {
        CryptoPriceSource::Binance => "crypto_prices",
        CryptoPriceSource::Chainlink => "crypto_prices_chainlink",
    }
}

/// The source a topic belongs to.
pub fn source_from_topic(topic: &str) -> (r: Option<CryptoPriceSource>)
    ensures
        r == source_of_topic(topic@),
{
    if str_eq(topic, "crypto_prices") {
        Some(CryptoPriceSource::Binance)
    } else if str_eq(topic, "crypto_prices_chainlink") {
        Some(CryptoPriceSource::Chainlink)
    } else {
        None
    }
}

/// Reading the topic of a source gives the source back, and two sources
/// never share a topic.
pub proof fn lemma_topic_round_trip(s: CryptoPriceSource, t: CryptoPriceSource)
    ensures
        source_of_topic(topic_of(s)) == Some(s),
        s != t ==> topic_of(s) != topic_of(t),
{
    reveal_strlit("crypto_prices");
    reveal_strlit("crypto_prices_chainlink");
    assert("crypto_prices"@.len() != "crypto_prices_chainlink"@.len());
}

/// The members of a subscription entry.
pub open spec fn entry_members(topic: Seq<char>, filters: Seq<char>) -> Seq<(Seq<char>, Scalar)> {
    seq![("topic"@, Scalar::Text(topic)), ("type"@, Scalar::Text("*"@)), ("filters"@, Scalar::Text(filters))]
}

/// The filter of one symbol: the JSON text of `{"symbol": symbol}`.
pub open spec fn is_symbol_filter(f: Seq<char>, symbol: Seq<char>) -> bool {
    exists|j: Json| #![trigger spec_json_text(j)]
        (j matches Json::Object(m) && members_view(m@) == seq![("symbol"@, Scalar::Text(symbol))])
            && f == spec_json_text(j)
}

/// Whether entry `e` subscribes `topic` with a filter for `symbol`, or to
/// every symbol (`None`, empty filter).
pub open spec fn is_entry(e: Json, topic: Seq<char>, symbol: Option<Seq<char>>) -> bool {
    e matches Json::Object(m) && members_view(m@).len() == 3 && members_view(m@).take(2)
        == entry_members(topic, Seq::empty()).take(2) && members_view(m@)[2].0 == "filters"@
        && match symbol {
        None => members_view(m@)[2].1 == Scalar::Text(Seq::empty()),
        Some(s) => members_view(m@)[2].1 matches Scalar::Text(f) && is_symbol_filter(f, s),
    }
}

/// Whether `doc` is `{"action": action, "subscriptions": [..]}` with one
/// entry per symbol, or one entry for every symbol when none is given.
pub open spec fn is_command(doc: Json, action: Seq<char>, topic: Seq<char>, symbols: Seq<Seq<char>>) -> bool {
    &&& doc matches Json::Object(m) && m@.len() == 2 && m@[0].0@ == "action"@ && crate::json::scalar_of(
        m@[0].1,
    ) == Scalar::Text(action) && m@[1].0@ == "subscriptions"@
    &&& doc matches Json::Object(m) && m@[1].1 matches Json::Array(es) && (if symbols.len() == 0 {
        es@.len() == 1 && is_entry(es@[0], topic, None)
    } else {
        es@.len() == symbols.len() && forall|i: int|
            0 <= i < symbols.len() ==> is_entry(#[trigger] es@[i], topic, Some(symbols[i]))
    })
}

/// Whether `t` is the JSON text of a command document.
pub open spec fn is_command_text(t: Seq<char>, action: Seq<char>, topic: Seq<char>, symbols: Seq<Seq<char>>) -> bool {
    exists|doc: Json| #![trigger spec_json_text(doc)]
        is_command(doc, action, topic, symbols) && t == spec_json_text(doc)
}

/// One member `(key, text)`.
fn text_pair(key: &str, value: &str) -> (r: (String, Json))
    ensures
        r.0@ == key@,
        r.1 == Json::Str(r.1->Str_0) && r.1->Str_0@ == value@,
{
    (owned(key), Json::Str(owned(value)))
}

/// A subscription entry.
fn entry(topic: &str, filters: &str) -> (r: Json)
    ensures
        r matches Json::Object(m) && members_view(m@) == entry_members(topic@, filters@),
{
    let mut m: Vec<(String, Json)> = Vec::new();
    m.push(text_pair("topic", topic));
    m.push(text_pair("type", "*"));
    m.push(text_pair("filters", filters));
    assert(members_view(m@) =~= entry_members(topic@, filters@));
    Json::Object(m)
}

/// The filter text for one symbol.
fn symbol_filter(symbol: &str) -> (r: String)
    ensures
        is_symbol_filter(r@, symbol@),
{
    let mut m: Vec<(String, Json)> = Vec::new();
    m.push(text_pair("symbol", symbol));
    assert(members_view(m@) =~= seq![("symbol"@, Scalar::Text(symbol@))]);
    let j = Json::Object(m);
    json_text(&j)
}

/// The command document for a source and its symbols.
fn command_doc(action: &str, source: CryptoPriceSource, symbols: &Vec<String>) -> (r: Json)
    ensures
        is_command(r, action@, topic_of(source), views(symbols@)),
{
    proof {
        reveal_strlit("");
    }
    let topic = topic_for_source(source);
    let mut es: Vec<Json> = Vec::new();
    if symbols.len() == 0 {
        let e = entry(topic, "");
        proof {
            assert(members_view(e->Object_0@).take(2) =~= entry_members(topic@, Seq::empty()).take(2));
            reveal_strlit("");
            assert(""@ =~= Seq::<char>::empty());
            let mv = members_view(e->Object_0@);
            assert(mv == entry_members(topic@, ""@));
            assert(mv[2] == ("filters"@, Scalar::Text(""@)));
            assert(mv.len() == 3);
            assert(is_entry(e, topic@, None));
        }
        es.push(e);
        assert(es@.len() == 1 && is_entry(es@[0], topic@, None));
    } else {
        let mut i: usize = 0;
        while i < symbols.len()
            invariant
                i <= symbols.len(),
                es@.len() == i,
                topic@ == topic_of(source),
                forall|k: int| 0 <= k < i ==> is_entry(#[trigger] es@[k], topic@, Some(symbols@[k]@)),
            decreases symbols.len() - i,
        {
            let f = symbol_filter(symbols[i].as_str());
            let e = entry(topic, f.as_str());
            proof {
                assert(members_view(e->Object_0@).take(2) =~= entry_members(topic@, Seq::empty()).take(2));
                assert(is_entry(e, topic@, Some(symbols@[i as int]@)));
            }
            es.push(e);
            i = i + 1;
        }
        proof {
            assert forall|k: int| 0 <= k < views(symbols@).len() implies is_entry(
                #[trigger] es@[k],
                topic@,
                Some(views(symbols@)[k]),
            ) by {
                assert(is_entry(es@[k], topic@, Some(symbols@[k]@)));
            }
        }
    }
    let ghost es_v = es@;
    assert(views(symbols@).len() == symbols@.len());
    let mut m: Vec<(String, Json)> = Vec::new();
    m.push(text_pair("action", action));
    m.push((owned("subscriptions"), Json::Array(es)));
    assert(m@[1].1 == Json::Array(m@[1].1->Array_0));
    assert(m@[1].1->Array_0@ == es_v);
    let r = Json::Object(m);
    assert(crate::json::scalar_of(m@[0].1) == Scalar::Text(action@));
    if symbols.len() == 0 {
        assert(es_v.len() == 1 && is_entry(es_v[0], topic_of(source), None));
    } else {
        assert(es_v.len() == views(symbols@).len());
    }
    r
}

/// The JSON text of a subscribe command; no symbols subscribes to every
/// symbol of the source.
pub fn build_subscribe_msg(source: CryptoPriceSource, symbols: &Vec<String>) -> (r: String)
    ensures
        is_command_text(r@, "subscribe"@, topic_of(source), views(symbols@)),
{
    let doc = command_doc("subscribe", source, symbols);
    json_text(&doc)
}

/// The JSON text of an unsubscribe command.
pub fn build_unsubscribe_msg(source: CryptoPriceSource, symbols: &Vec<String>) -> (r: String)
    ensures
        is_command_text(r@, "unsubscribe"@, topic_of(source), views(symbols@)),
{
    let doc = command_doc("unsubscribe", source, symbols);
    json_text(&doc)
}

/// A price pushed by the feed. `value` is number text.
#[derive(Debug, Clone)]
pub struct CryptoPrice {
    pub symbol: String,
    pub timestamp: u64,
    pub value: String,
    pub source: CryptoPriceSource,
}

/// The envelope of a pushed message can be read: an object with a string
/// `topic`, a `type` that is a string when given, a `timestamp` that is an
/// unsigned integer or null when given, and a `payload`.
pub open spec fn envelope_ok(j: Json) -> bool {
    &&& j is Object
    &&& str_field(j, "topic"@) is Some
    &&& (match j.field("type"@) {
        None => true,
        Some(Json::Str(_)) => true,
        _ => false,
    })
    &&& (match j.field("timestamp"@) {
        None => true,
        Some(Json::Null) => true,
        Some(Json::UInt(_)) => true,
        _ => false,
    })
    &&& j.field("payload"@) is Some
}

/// The price a payload carries: a string `symbol`, an unsigned integer
/// `timestamp` and a numeric `value`.
pub open spec fn payload_price(p: Json) -> Option<(Seq<char>, u64, Seq<char>)> {
    if p is Object {
        match (str_field(p, "symbol"@), p.field("timestamp"@), p.field("value"@)) {
            (Some(s), Some(Json::UInt(t)), Some(v)) => match crate::json::number_text_of(v) {
                Some(x) => Some((s, t, x)),
                None => None,
            },
            _ => None,
        }
    } else {
        None
    }
}

/// The price a text message of the feed carries, if it carries one: not
/// the `PONG` reply, a readable envelope on a known topic, and a readable
/// payload.
pub open spec fn price_of_text(text: Seq<char>) -> Option<(Seq<char>, u64, Seq<char>, CryptoPriceSource)> {
    if text == "PONG"@ {
        None
    } else {
        match spec_parse_json(text) {
            Some(j) => if envelope_ok(j) {
                match source_of_topic(str_field(j, "topic"@)->0) {
                    Some(src) => match payload_price(j.field("payload"@)->0) {
                        Some((s, t, v)) => Some((s, t, v, src)),
                        None => None,
                    },
                    None => None,
                }
            } else {
                None
            },
            None => None,
        }
    }
}

/// Reads a text message of the feed.
pub fn decode_price(text: &str) -> (r: Option<CryptoPrice>)
    ensures
        match price_of_text(text@) {
            Some((s, t, v, src)) => r matches Some(p) && p.symbol@ == s && p.timestamp == t
                && p.value@ == v && p.source == src,
            None => r is None,
        },
{
    if str_eq(text, "PONG") {
        return None;
    }
    let j = match parse_json(text) {
        Some(j) => j,
        None => return None,
    };
    match &j {
        Json::Object(_) => {},
        _ => return None,
    }
    let topic = match j.get_str("topic") {
        Some(t) => t,
        None => return None,
    };
    match j.get("type") {
        None => {},
        Some(Json::Str(_)) => {},
        Some(_) => return None,
    }
    match j.get("timestamp") {
        None => {},
        Some(Json::Null) => {},
        Some(Json::UInt(_)) => {},
        Some(_) => return None,
    }
    let payload = match j.get("payload") {
        Some(p) => p,
        None => return None,
    };
    let source = match source_from_topic(topic) {
        Some(s) => s,
        None => return None,
    };
    match payload {
        Json::Object(_) => {},
        _ => return None,
    }
    let symbol = match payload.get_str("symbol") {
        Some(s) => s,
        None => return None,
    };
    let timestamp = match payload.get("timestamp") {
        Some(Json::UInt(t)) => *t,
        _ => return None,
    };
    let value = match payload.get("value") {
        Some(v) => match crate::json::number_text(v) {
            Some(x) => x,
            None => return None,
        },
        None => return None,
    };
    Some(CryptoPrice { symbol: owned(symbol), timestamp, value, source })
}

/// The subscriptions a feed replays after a reconnect, in the order made.
#[derive(Debug)]
pub struct CryptoSubscriptions {
    pub entries: Vec<(CryptoPriceSource, Vec<String>)>,
}

/// The entries as plain values.
pub open spec fn subs_view(v: Seq<(CryptoPriceSource, Vec<String>)>) -> Seq<(CryptoPriceSource, Seq<Seq<char>>)> {
    v.map_values(|e: (CryptoPriceSource, Vec<String>)| (e.0, views(e.1@)))
}

/// The entries other than `(source, symbols)`, in order.
pub open spec fn without(
    v: Seq<(CryptoPriceSource, Seq<Seq<char>>)>,
    source: CryptoPriceSource,
    symbols: Seq<Seq<char>>,
) -> Seq<(CryptoPriceSource, Seq<Seq<char>>)>
    decreases v.len(),
{
    if v.len() == 0 {
        Seq::empty()
    } else {
        let rest = without(v.drop_last(), source, symbols);
        if v.last() == (source, symbols) {
            rest
        } else {
            rest.push(v.last())
        }
    }
}

/// Whether two lists of texts are equal.
fn same_symbols(a: &Vec<String>, b: &Vec<String>) -> (r: bool)
    ensures
        r == (views(a@) == views(b@)),
{
    if a.len() != b.len() {
        assert(views(a@).len() != views(b@).len());
        return false;
    }
    let mut i: usize = 0;
    while i < a.len()
        invariant
            a.len() == b.len(),
            i <= a.len(),
            forall|k: int| 0 <= k < i ==> a@[k]@ == b@[k]@,
        decreases a.len() - i,
    {
        if !str_eq(a[i].as_str(), b[i].as_str()) {
            assert(views(a@)[i as int] != views(b@)[i as int]);
            return false;
        }
        i = i + 1;
    }
    assert(views(a@) =~= views(b@));
    true
}

/// Copies a list of texts.
fn copy_symbols(a: &Vec<String>) -> (r: Vec<String>)
    ensures
        views(r@) == views(a@),
{
    let mut r: Vec<String> = Vec::new();
    let mut i: usize = 0;
    while i < a.len()
        invariant
            i <= a.len(),
            views(r@) == views(a@.take(i as int)),
        decreases a.len() - i,
    {
        r.push(a[i].clone());
        assert(views(a@.take(i + 1)) =~= views(a@.take(i as int)).push(a@[i as int]@));
        assert(views(r@) =~= views(r@.drop_last()).push(r@.last()@));
        i = i + 1;
    }
    assert(a@.take(a@.len() as int) =~= a@);
    r
}

impl CryptoSubscriptions {
    /// None yet.
    pub fn new() -> (r: Self)
        ensures
            subs_view(r.entries@) == Seq::<(CryptoPriceSource, Seq<Seq<char>>)>::empty(),
    {
        let r = CryptoSubscriptions { entries: Vec::new() };
        assert(subs_view(r.entries@) =~= Seq::<(CryptoPriceSource, Seq<Seq<char>>)>::empty());
        r
    }

    /// Records a subscription.
    pub fn add(&mut self, source: CryptoPriceSource, symbols: &Vec<String>)
        ensures
            subs_view(final(self).entries@) == subs_view(old(self).entries@).push(
                (source, views(symbols@)),
            ),
    {
        let c = copy_symbols(symbols);
        self.entries.push((source, c));
        assert(subs_view(self.entries@) =~= subs_view(old(self).entries@).push(
            (source, views(symbols@)),
        ));
    }

    /// Drops every recorded subscription equal to `(source, symbols)`.
    pub fn remove(&mut self, source: CryptoPriceSource, symbols: &Vec<String>)
        ensures
            subs_view(final(self).entries@) == without(
                subs_view(old(self).entries@),
                source,
                views(symbols@),
            ),
    {
        let mut kept: Vec<(CryptoPriceSource, Vec<String>)> = Vec::new();
        let mut i: usize = 0;
        while i < self.entries.len()
            invariant
                i <= self.entries@.len(),
                self.entries@ == old(self).entries@,
                subs_view(kept@) == without(
                    subs_view(self.entries@.take(i as int)),
                    source,
                    views(symbols@),
                ),
            decreases self.entries.len() - i,
        {
            assert(subs_view(self.entries@.take(i + 1)).drop_last() =~= subs_view(
                self.entries@.take(i as int),
            ));
            assert(subs_view(self.entries@.take(i + 1)).last() == (
                self.entries@[i as int].0,
                views(self.entries@[i as int].1@),
            ));
            let same = self.entries[i].0 == source && same_symbols(&self.entries[i].1, symbols);
            if !same {
                let c = copy_symbols(&self.entries[i].1);
                kept.push((self.entries[i].0, c));
                assert(subs_view(kept@) =~= subs_view(kept@.drop_last()).push(
                    (self.entries@[i as int].0, views(self.entries@[i as int].1@)),
                ));
            }
            i = i + 1;
        }
        assert(self.entries@.take(self.entries@.len() as int) =~= self.entries@);
        self.entries = kept;
    }

    /// The subscribe commands to replay, one per recorded subscription.
    pub fn replay(&self) -> (r: Vec<String>)
        ensures
            r@.len() == self.entries@.len(),
            forall|i: int|
                0 <= i < r@.len() ==> is_command_text(
                    (#[trigger] r@[i])@,
                    "subscribe"@,
                    topic_of(self.entries@[i].0),
                    views(self.entries@[i].1@),
                ),
    {
        let mut r: Vec<String> = Vec::new();
        let mut i: usize = 0;
        while i < self.entries.len()
            invariant
                i <= self.entries@.len(),
                r@.len() == i,
                forall|k: int|
                    0 <= k < i ==> is_command_text(
                        (#[trigger] r@[k])@,
                        "subscribe"@,
                        topic_of(self.entries@[k].0),
                        views(self.entries@[k].1@),
                    ),
            decreases self.entries.len() - i,
        {
            let m = build_subscribe_msg(self.entries[i].0, &self.entries[i].1);
            r.push(m);
            i = i + 1;
        }
        r
    }
}

/// An element is in a sequence with one more element pushed when it is in
/// the sequence or is that element.
proof fn lemma_push_contains<T>(s: Seq<T>, y: T, e: T)
    ensures
        s.push(y).contains(e) <==> (s.contains(e) || e == y),
{
    if s.contains(e) {
        let k = choose|k: int| 0 <= k < s.len() && s[k] == e;
        assert(s.push(y)[k] == e);
    }
    if e == y {
        assert(s.push(y)[s.len() as int] == e);
    }
    if s.push(y).contains(e) {
        let k = choose|k: int| 0 <= k < s.push(y).len() && s.push(y)[k] == e;
        if k < s.len() {
            assert(s[k] == e);
        }
    }
}

/// An element is in a sequence with one more element pushed when it is in
/// the sequence or is that element.
pub proof fn lemma_push_contains_pub<T>(s: Seq<T>, y: T, e: T)
    ensures
        s.push(y).contains(e) <==> (s.contains(e) || e == y),
{
    lemma_push_contains(s, y, e);
}

/// A non-empty sequence holds an element when its front part or its last
/// element does.
proof fn lemma_last_contains<T>(v: Seq<T>, e: T)
    requires
        v.len() > 0,
    ensures
        v.contains(e) <==> (v.drop_last().contains(e) || v.last() == e),
{
    assert(v.drop_last().push(v.last()) =~= v);
    lemma_push_contains(v.drop_last(), v.last(), e);
}

/// Unsubscribing keeps exactly the subscriptions other than the one
/// removed: none equal to it remains, and every other one stays.
pub proof fn lemma_unsubscribe_removes(
    v: Seq<(CryptoPriceSource, Seq<Seq<char>>)>,
    source: CryptoPriceSource,
    symbols: Seq<Seq<char>>,
    e: (CryptoPriceSource, Seq<Seq<char>>),
)
    ensures
        without(v, source, symbols).contains(e) <==> (v.contains(e) && e != (source, symbols)),
    decreases v.len(),
{
    if v.len() > 0 {
        lemma_unsubscribe_removes(v.drop_last(), source, symbols, e);
        lemma_last_contains(v, e);
        let rest = without(v.drop_last(), source, symbols);
        if v.last() != (source, symbols) {
            lemma_push_contains(rest, v.last(), e);
        }
    }
}

} // verus!
