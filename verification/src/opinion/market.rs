//! An Opinion market object, read into plain values.

use vstd::prelude::*;
use vstd::string::*;

use crate::json::{opt_view, views, Json};
use crate::kalshi::catalog::text_or_empty;
use crate::models::{MarketStatus, MarketType};
use crate::opinion::fields::{
    amount_text_of, get3, get4, id_text_of, opt_amount, opt_id, opt_str, pick2, pick3, pick4,
    positive_secs_ms, positive_secs_of, then_amount, then_id, then_str,
};
use crate::text::{concat, lowercase, owned, spec_lowercase, str_eq, u64_to_string, decimal};

verus! {

/// An outcome and the token that trades it.
#[derive(Debug, Clone)]
pub struct OutcomeToken {
    pub outcome: String,
    pub token_id: String,
}

/// An Opinion market. Times are milliseconds since the epoch; volumes,
/// liquidity, open interest and tick size are number text.
#[derive(Debug, Clone)]
pub struct OpinionMarket {
    pub openpx_id: String,
    pub exchange: String,
    pub id: String,
    pub group_id: Option<String>,
    pub event_id: Option<String>,
    pub title: String,
    pub question: Option<String>,
    pub description: String,
    pub rules: Option<String>,
    pub status: MarketStatus,
    pub market_type: MarketType,
    pub accepting_orders: bool,
    pub outcomes: Vec<String>,
    pub outcome_tokens: Vec<OutcomeToken>,
    pub token_id_yes: Option<String>,
    pub token_id_no: Option<String>,
    pub condition_id: Option<String>,
    pub question_id: Option<String>,
    pub volume: Option<String>,
    pub volume_24h: Option<String>,
    pub volume_1wk: Option<String>,
    pub liquidity: Option<String>,
    pub open_interest: Option<String>,
    pub tick_size: String,
    pub close_time: Option<i64>,
    pub created_at: Option<i64>,
    pub settlement_time: Option<i64>,
    pub denomination_token: Option<String>,
    pub chain_id: String,
}

/// The outcome-token pairs as texts.
pub open spec fn tokens_view(v: Seq<OutcomeToken>) -> Seq<(Seq<char>, Seq<char>)> {
    v.map_values(|t: OutcomeToken| (t.outcome@, t.token_id@))
}

/// A text that is there and not empty.
pub open spec fn non_empty_text(o: Option<Seq<char>>) -> Option<Seq<char>> {
    match o {
        Some(t) => if t.len() > 0 {
            Some(t)
        } else {
            None
        },
        None => None,
    }
}

/// A label: the non-empty text given, else the default.
pub open spec fn label_or(o: Option<Seq<char>>, d: Seq<char>) -> Seq<char> {
    match non_empty_text(o) {
        Some(t) => t,
        None => d,
    }
}

/// The title of a child market.
pub open spec fn child_title(c: Json) -> Option<Seq<char>> {
    then_str(pick2(c, "marketTitle"@, "market_title"@))
}

/// The yes token of a child market.
pub open spec fn child_token(c: Json) -> Option<Seq<char>> {
    then_str(pick2(c, "yesTokenId"@, "yes_token_id"@))
}

/// The outcomes of the child markets: the title of each child that has one.
pub open spec fn child_outcomes(cs: Seq<Json>) -> Seq<Seq<char>>
    decreases cs.len(),
{
    if cs.len() == 0 {
        Seq::empty()
    } else {
        let rest = child_outcomes(cs.drop_last());
        match child_title(cs.last()) {
            Some(t) => rest.push(t),
            None => rest,
        }
    }
}

/// The outcome tokens of the child markets: each titled child's yes token.
pub open spec fn child_tokens(cs: Seq<Json>) -> Seq<(Seq<char>, Seq<char>)>
    decreases cs.len(),
{
    if cs.len() == 0 {
        Seq::empty()
    } else {
        let rest = child_tokens(cs.drop_last());
        match (child_title(cs.last()), child_token(cs.last())) {
            (Some(t), Some(k)) => rest.push((t, k)),
            _ => rest,
        }
    }
}

/// The yes and no tokens of a binary market, when both are given.
pub open spec fn binary_tokens(j: Json) -> Option<(Seq<char>, Seq<char>)> {
    match (
        non_empty_text(then_str(pick2(j, "yesTokenId"@, "yes_token_id"@))),
        non_empty_text(then_str(pick2(j, "noTokenId"@, "no_token_id"@))),
    ) {
        (Some(y), Some(n)) => Some((y, n)),
        _ => None,
    }
}

/// The child markets of a categorical market.
pub open spec fn children_of(j: Json) -> Option<Seq<Json>> {
    match pick2(j, "childMarkets"@, "child_markets"@) {
        Some(Json::Array(a)) => Some(a@),
        _ => None,
    }
}

/// The outcomes and outcome tokens a market object gives, before the
/// fallback to Yes/No.
pub open spec fn listed_outcomes(j: Json) -> (Seq<Seq<char>>, Seq<(Seq<char>, Seq<char>)>) {
    let yl = label_or(then_str(pick2(j, "yesLabel"@, "yes_label"@)), "Yes"@);
    let nl = label_or(then_str(pick2(j, "noLabel"@, "no_label"@)), "No"@);
    match binary_tokens(j) {
        Some((y, n)) => (seq![yl, nl], seq![(yl, y), (nl, n)]),
        None => match children_of(j) {
            Some(cs) => (child_outcomes(cs), child_tokens(cs)),
            None => (Seq::empty(), Seq::empty()),
        },
    }
}

/// The outcomes of a market: those listed, or Yes/No when none are.
pub open spec fn market_outcomes(j: Json) -> Seq<Seq<char>> {
    let o = listed_outcomes(j).0;
    if o.len() == 0 {
        seq!["Yes"@, "No"@]
    } else {
        o
    }
}

/// The status of a market: its status word (`activated` active,
/// `resolved` resolved, others closed), else its status code (2 active,
/// 4 resolved, others closed), else active.
pub open spec fn opinion_market_status(j: Json) -> MarketStatus {
    match then_str(pick2(j, "statusEnum"@, "status_enum"@)) {
        Some(s) => {
            let l = spec_lowercase(s);
            if l == "activated"@ {
                MarketStatus::Active
            } else if l == "resolved"@ {
                MarketStatus::Resolved
            } else {
                MarketStatus::Closed
            }
        },
        None => match j.field("status"@) {
            Some(v) => match v.i64_of() {
                Some(c) => if c == 2 {
                    MarketStatus::Active
                } else if c == 4 {
                    MarketStatus::Resolved
                } else {
                    MarketStatus::Closed
                },
                None => MarketStatus::Active,
            },
            None => MarketStatus::Active,
        },
    }
}

/// The event an Opinion market group belongs to, keyed by venue.
pub open spec fn event_id_of(group: Option<Seq<char>>) -> Option<Seq<char>> {
    match group {
        Some(g) => if g.len() > 0 {
            Some("opinion:"@ + g)
        } else {
            None
        },
        None => None,
    }
}

/// An optional JSON number as text.
pub open spec fn then_number(v: Option<Json>) -> Option<Seq<char>> {
    match v {
        Some(x) => crate::json::number_text_of(x),
        None => None,
    }
}

/// An optional positive second count as milliseconds.
pub open spec fn then_secs(v: Option<Json>) -> Option<i64> {
    match v {
        Some(x) => positive_secs_of(x),
        None => None,
    }
}

/// Whether `m` is the market the Opinion market object `j` describes, on
/// chain `chain_id`.
pub open spec fn is_opinion_market(m: OpinionMarket, j: Json, chain_id: u64) -> bool {
    &&& then_id(pick4(j, "marketId"@, "market_id"@, "topic_id"@, "id"@)) == Some(m.id@)
    &&& m.openpx_id@ == "opinion:"@ + m.id@
    &&& m.exchange@ == "opinion"@
    &&& m.title@ == text_or_empty(then_str(pick4(j, "marketTitle"@, "market_title"@, "title"@, "question"@)))
    &&& opt_view(m.question) == Some(m.title@)
    &&& opt_view(m.rules) == then_str(j.field("rules"@))
    &&& m.description@ == text_or_empty(crate::json::first_some(
        then_str(j.field("rules"@)),
        then_str(j.field("description"@)),
    ))
    &&& views(m.outcomes@) == market_outcomes(j)
    &&& tokens_view(m.outcome_tokens@) == listed_outcomes(j).1
    &&& m.market_type == (if market_outcomes(j).len() == 2 {
        MarketType::Binary
    } else {
        MarketType::Categorical
    })
    &&& opt_view(m.token_id_yes) == (match binary_tokens(j) {
        Some((y, _)) => Some(y),
        None => None,
    })
    &&& opt_view(m.token_id_no) == (match binary_tokens(j) {
        Some((_, n)) => Some(n),
        None => None,
    })
    &&& opt_view(m.condition_id) == non_empty_text(then_str(pick2(j, "conditionId"@, "condition_id"@)))
    &&& opt_view(m.question_id) == non_empty_text(then_str(pick2(j, "questionId"@, "question_id"@)))
    &&& opt_view(m.group_id) == then_id(pick2(j, "groupId"@, "group_id"@))
    &&& opt_view(m.event_id) == event_id_of(opt_view(m.group_id))
    &&& m.status == opinion_market_status(j)
    &&& m.accepting_orders == (m.status == MarketStatus::Active)
    &&& opt_view(m.volume) == then_amount(j.field("volume"@))
    &&& opt_view(m.volume_24h) == then_amount(j.field("volume24h"@))
    &&& opt_view(m.volume_1wk) == then_amount(j.field("volume7d"@))
    &&& opt_view(m.liquidity) == then_number(j.field("liquidity"@))
    &&& opt_view(m.open_interest) == then_amount(pick2(j, "openInterest"@, "open_interest"@))
    &&& m.tick_size@ == "0.001"@
    &&& m.close_time == then_secs(pick3(j, "cutoffAt"@, "cutoff_at"@, "cutoff_time"@))
    &&& m.created_at == then_secs(pick2(j, "createdAt"@, "created_at"@))
    &&& m.settlement_time == then_secs(pick2(j, "resolvedAt"@, "resolved_at"@))
    &&& opt_view(m.denomination_token) == then_str(pick2(j, "quoteToken"@, "quote_token"@))
    &&& m.chain_id@ == decimal(chain_id as nat)
}

/// A non-empty owned text.
fn non_empty_owned(s: Option<&str>) -> (r: Option<String>)
    ensures
        opt_view(r) == non_empty_text(
            match s {
                Some(t) => Some(t@),
                None => None,
            },
        ),
{
    match s {
        Some(t) => if t.unicode_len() > 0 {
            Some(owned(t))
        } else {
            None
        },
        None => None,
    }
}

/// The outcomes and tokens of child markets.
fn collect_children(cs: &Vec<Json>) -> (r: (Vec<String>, Vec<OutcomeToken>))
    ensures
        views(r.0@) == child_outcomes(cs@),
        tokens_view(r.1@) == child_tokens(cs@),
{
    let mut outs: Vec<String> = Vec::new();
    let mut toks: Vec<OutcomeToken> = Vec::new();
    let mut i: usize = 0;
    while i < cs.len()
        invariant
            i <= cs.len(),
            views(outs@) == child_outcomes(cs@.take(i as int)),
            tokens_view(toks@) == child_tokens(cs@.take(i as int)),
        decreases cs.len() - i,
    {
        assert(cs@.take(i + 1).drop_last() =~= cs@.take(i as int));
        assert(cs@.take(i + 1).last() == cs@[i as int]);
        let c = &cs[i];
        match opt_str(c.get_either("marketTitle", "market_title")) {
            Some(t) => {
                outs.push(owned(t));
                assert(views(outs@) =~= views(outs@.drop_last()).push(t@));
                match opt_str(c.get_either("yesTokenId", "yes_token_id")) {
                    Some(k) => {
                        let tok = OutcomeToken { outcome: owned(t), token_id: owned(k) };
                        toks.push(tok);
                        assert(tokens_view(toks@) =~= tokens_view(toks@.drop_last()).push(
                            (t@, k@),
                        ));
                    },
                    None => {},
                }
            },
            None => {},
        }
        i = i + 1;
    }
    assert(cs@.take(cs.len() as int) =~= cs@);
    (outs, toks)
}

/// The status of a market object.
fn market_status(j: &Json) -> (r: MarketStatus)
    ensures
        r == opinion_market_status(*j),
{
    match opt_str(j.get_either("statusEnum", "status_enum")) {
        Some(s) => {
            let l = lowercase(s);
            if str_eq(l.as_str(), "activated") {
                MarketStatus::Active
            } else if str_eq(l.as_str(), "resolved") {
                MarketStatus::Resolved
            } else {
                MarketStatus::Closed
            }
        },
        None => match j.get("status") {
            Some(v) => match v.as_i64() {
                Some(c) => if c == 2 {
                    MarketStatus::Active
                } else if c == 4 {
                    MarketStatus::Resolved
                } else {
                    MarketStatus::Closed
                },
                None => MarketStatus::Active,
            },
            None => MarketStatus::Active,
        },
    }
}

/// An optional positive second count as milliseconds.
fn opt_secs(v: Option<&Json>) -> (r: Option<i64>)
    ensures
        r == then_secs(
            match v {
                Some(x) => Some(*x),
                None => None,
            },
        ),
{
    match v {
        Some(x) => positive_secs_ms(x),
        None => None,
    }
}

/// The outcomes, tokens and binary token ids of a market object.
fn outcomes_of(j: &Json) -> (r: (Vec<String>, Vec<OutcomeToken>, Option<String>, Option<String>))
    ensures
        views(r.0@) == market_outcomes(*j),
        tokens_view(r.1@) == listed_outcomes(*j).1,
        opt_view(r.2) == (match binary_tokens(*j) {
            Some((y, _)) => Some(y),
            None => None,
        }),
        opt_view(r.3) == (match binary_tokens(*j) {
            Some((_, n)) => Some(n),
            None => None,
        }),
{
    let yes_token = non_empty_owned(opt_str(j.get_either("yesTokenId", "yes_token_id")));
    let no_token = non_empty_owned(opt_str(j.get_either("noTokenId", "no_token_id")));
    let yes_label = match non_empty_owned(opt_str(j.get_either("yesLabel", "yes_label"))) {
        Some(t) => t,
        None => owned("Yes"),
    };
    let no_label = match non_empty_owned(opt_str(j.get_either("noLabel", "no_label"))) {
        Some(t) => t,
        None => owned("No"),
    };
    let (outs, toks, ty, tn) = match (yes_token, no_token) {
        (Some(yt), Some(nt)) => {
            let mut outs: Vec<String> = Vec::new();
            outs.push(yes_label.clone());
            outs.push(no_label.clone());
            let mut toks: Vec<OutcomeToken> = Vec::new();
            toks.push(OutcomeToken { outcome: yes_label.clone(), token_id: yt.clone() });
            toks.push(OutcomeToken { outcome: no_label.clone(), token_id: nt.clone() });
            assert(views(outs@) =~= seq![yes_label@, no_label@]);
            assert(tokens_view(toks@) =~= seq![(yes_label@, yt@), (no_label@, nt@)]);
            (outs, toks, Some(yt), Some(nt))
        },
        _ => match j.get_either("childMarkets", "child_markets") {
            Some(Json::Array(cs)) => {
                let (o, t) = collect_children(cs);
                (o, t, None, None)
            },
            _ => {
                let o: Vec<String> = Vec::new();
                let t: Vec<OutcomeToken> = Vec::new();
                assert(views(o@) =~= Seq::<Seq<char>>::empty());
                assert(tokens_view(t@) =~= Seq::<(Seq<char>, Seq<char>)>::empty());
                (o, t, None, None)
            },
        },
    };
    assert(views(outs@) == listed_outcomes(*j).0);
    if outs.len() == 0 {
        let mut d: Vec<String> = Vec::new();
        d.push(owned("Yes"));
        d.push(owned("No"));
        assert(views(d@) =~= seq!["Yes"@, "No"@]);
        (d, toks, ty, tn)
    } else {
        (outs, toks, ty, tn)
    }
}

/// Reads an Opinion market object on chain `chain_id`; `None` when it has
/// no id (text or integer) under any of its keys.
pub fn parse_market(data: &Json, chain_id: u64) -> (r: Option<OpinionMarket>)
    ensures
        r is Some <==> then_id(pick4(*data, "marketId"@, "market_id"@, "topic_id"@, "id"@)) is Some,
        r matches Some(m) ==> is_opinion_market(m, *data, chain_id),
{
    let id = match opt_id(get4(data, "marketId", "market_id", "topic_id", "id")) {
        Some(t) => t,
        None => return None,
    };
    let title = match opt_str(get4(data, "marketTitle", "market_title", "title", "question")) {
        Some(t) => owned(t),
        None => String::new(),
    };
    let (outcomes, outcome_tokens, token_id_yes, token_id_no) = outcomes_of(data);
    let market_type = if outcomes.len() == 2 {
        MarketType::Binary
    } else {
        MarketType::Categorical
    };
    let rules = match opt_str(data.get("rules")) {
        Some(t) => Some(owned(t)),
        None => None,
    };
    let description = match opt_str(data.get("rules")) {
        Some(t) => owned(t),
        None => match opt_str(data.get("description")) {
            Some(t) => owned(t),
            None => String::new(),
        },
    };
    let group_id = opt_id(data.get_either("groupId", "group_id"));
    let event_id = match &group_id {
        Some(g) => if g.unicode_len() > 0 {
            Some(concat("opinion:", g.as_str()))
        } else {
            None
        },
        None => None,
    };
    let status = market_status(data);
    let liquidity = match data.get("liquidity") {
        Some(v) => crate::json::number_text(v),
        None => None,
    };
    let denomination_token = match opt_str(data.get_either("quoteToken", "quote_token")) {
        Some(t) => Some(owned(t)),
        None => None,
    };
    let openpx_id = concat("opinion:", id.as_str());
    let question = Some(title.clone());
    let m = OpinionMarket {
        openpx_id,
        exchange: owned("opinion"),
        id,
        group_id,
        event_id,
        title,
        question,
        description,
        rules,
        status,
        market_type,
        accepting_orders: status == MarketStatus::Active,
        outcomes,
        outcome_tokens,
        token_id_yes,
        token_id_no,
        condition_id: non_empty_owned(opt_str(data.get_either("conditionId", "condition_id"))),
        question_id: non_empty_owned(opt_str(data.get_either("questionId", "question_id"))),
        volume: opt_amount(data.get("volume")),
        volume_24h: opt_amount(data.get("volume24h")),
        volume_1wk: opt_amount(data.get("volume7d")),
        liquidity,
        open_interest: opt_amount(data.get_either("openInterest", "open_interest")),
        tick_size: owned("0.001"),
        close_time: opt_secs(get3(data, "cutoffAt", "cutoff_at", "cutoff_time")),
        created_at: opt_secs(data.get_either("createdAt", "created_at")),
        settlement_time: opt_secs(data.get_either("resolvedAt", "resolved_at")),
        denomination_token,
        chain_id: u64_to_string(chain_id),
    };
    Some(m)
}

} // verus!
