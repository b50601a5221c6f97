//! The Limitless order book client's own rules: wire codes, order amounts
//! in fixed point, order salts, and which token belongs to which market.

use vstd::prelude::*;

use crate::json::views;
use crate::text::{owned, str_eq};

verus! {

/// Order side for the Limitless book.
#[derive(Debug, Clone, Copy, PartialEq, Eq, Structural)]
pub enum LimitlessSide {
    Buy,
    Sell,
}

impl LimitlessSide {
    /// The side code of a signed order: 0 buys, 1 sells.
    pub fn as_u8(&self) -> (r: u8)
        ensures
            r == (if *self == LimitlessSide::Buy {
                0u8
            } else {
                1u8
            }),
    {
        match self {
            LimitlessSide::Buy => 0,
            LimitlessSide::Sell => 1,
        }
    }
}

/// Order type for Limitless.
#[derive(Debug, Clone, Copy, PartialEq, Eq, Structural)]
pub enum LimitlessOrderType {
    Gtc,
    Fok,
}

impl LimitlessOrderType {
    /// The wire name of an order type.
    pub fn as_str(&self) -> (r: &'static str)
        ensures
            r@ == (if *self == LimitlessOrderType::Gtc {
                "GTC"@
            } else {
                "FOK"@
            }),
    {
        match self {
            LimitlessOrderType::Gtc => "GTC",
            LimitlessOrderType::Fok => "FOK",
        }
    }

    /// Good-till-cancelled, the default.
    pub fn default_type() -> (r: Self)
        ensures
            r == LimitlessOrderType::Gtc,
    {
        LimitlessOrderType::Gtc
    }
}

/// Shares, collateral and prices are counted in millionths.
pub const SCALE: u64 = 1000000;

/// Prices move in steps of a thousandth.
pub const PRICE_TICK: u64 = 1000;

/// Share counts are whole multiples of this many millionths.
pub const SHARES_STEP: u64 = 1000;

/// The share count of an order: the scaled size rounded down to a whole
/// number of price steps.
pub open spec fn aligned_shares(shares: u64) -> u64 {
    ((shares / SHARES_STEP) * SHARES_STEP) as u64
}

/// The collateral of `shares` at `price` (both in millionths), exact.
pub open spec fn collateral_num(shares: u64, price: u64) -> int {
    shares * price * SCALE
}

/// The `(maker, taker)` amounts of an order: a buy gives collateral
/// (rounded up) for shares, a sell gives shares for collateral (rounded
/// down). Collateral is kept to 64 bits as the wire type is.
pub open spec fn order_amounts_of(side: LimitlessSide, shares: u64, price: u64) -> (u64, u64) {
    let s = aligned_shares(shares);
    let num = collateral_num(s, price);
    let den = SCALE * SCALE;
    match side {
        LimitlessSide::Buy => ((((num + den - 1) / den) as u128) as u64, s),
        LimitlessSide::Sell => (s, (((num / den) as u128) as u64)),
    }
}

/// The maker and taker amounts of an order of `shares` (scaled size) at
/// `price_int` (scaled price).
pub fn order_amounts(side: LimitlessSide, shares: u64, price_int: u64) -> (r: (u64, u64))
    requires
        collateral_num(aligned_shares(shares), price_int) <= u128::MAX,
    ensures
        r == order_amounts_of(side, shares, price_int),
{
    let shares_step: u64 = SCALE / PRICE_TICK;
    let s = (shares / shares_step) * shares_step;
    assert(s <= shares) by (nonlinear_arith)
        requires
            s == (shares / shares_step) * shares_step,
            shares_step == 1000,
    ;
    assert(s == aligned_shares(shares));
    assert((s as u128) * (price_int as u128) <= u128::MAX) by (nonlinear_arith)
        requires
            s * price_int * 1000000 <= u128::MAX,
    ;
    let numerator: u128 = (s as u128) * (price_int as u128) * (SCALE as u128);
    let denominator: u128 = (SCALE as u128) * (SCALE as u128);
    assert(numerator == collateral_num(s, price_int)) by (nonlinear_arith)
        requires
            numerator == (s as u128) * (price_int as u128) * (SCALE as u128),
            s <= u64::MAX,
            price_int <= u64::MAX,
    ;
    match side {
        LimitlessSide::Buy => {
            let q = numerator / denominator;
            assert(q < 0xffff_ffff_ffff_ffff_ffff_ffff_ffff_ffffu128) by (nonlinear_arith)
                requires
                    q == numerator / denominator,
                    denominator == 1_000_000_000_000u128,
            ;
            let c = if numerator % denominator == 0 {
                q
            } else {
                q + 1
            };
            assert(c as int == (numerator as int + denominator as int - 1) / (denominator as int))
                by (nonlinear_arith)
                requires
                    q as int == numerator as int / denominator as int,
                    c as int == (if numerator as int % denominator as int == 0 {
                        q as int
                    } else {
                        q as int + 1
                    }),
                    denominator > 0,
                    numerator >= 0,
            ;
            (#[verifier::truncate] (c as u64), s)
        },
        LimitlessSide::Sell => {
            let c = numerator / denominator;
            (s, #[verifier::truncate] (c as u64))
        },
    }
}

/// The salt of an order made at `timestamp_ms`: unique per millisecond,
/// offset by a day.
pub open spec fn salt_of(timestamp_ms: u64) -> int {
    timestamp_ms * 1000 + timestamp_ms % 1000 + 86400000
}

/// The salt of an order made at `timestamp_ms` (the clock is read by the
/// caller).
pub fn order_salt(timestamp_ms: u64) -> (r: u64)
    requires
        salt_of(timestamp_ms) <= u64::MAX,
    ensures
        r == salt_of(timestamp_ms),
{
    timestamp_ms * 1000 + (timestamp_ms % 1000) + 86400000
}

/// Which market each token trades in, and which tokens are NO tokens
/// (their book is shown inverted).
#[derive(Debug)]
pub struct TokenRegistry {
    slugs: Vec<(String, String)>,
    no_tokens: Vec<String>,
}

/// The slug registered last for `token` among `pairs`.
pub open spec fn slug_in(pairs: Seq<(Seq<char>, Seq<char>)>, token: Seq<char>) -> Option<Seq<char>>
    decreases pairs.len(),
{
    if pairs.len() == 0 {
        None
    } else if pairs.last().0 == token {
        Some(pairs.last().1)
    } else {
        slug_in(pairs.drop_last(), token)
    }
}

/// The registered pairs as texts.
pub open spec fn pairs_view(v: Seq<(String, String)>) -> Seq<(Seq<char>, Seq<char>)> {
    v.map_values(|p: (String, String)| (p.0@, p.1@))
}

impl TokenRegistry {
    /// The slug a token maps to.
    pub closed spec fn slug_of(self, token: Seq<char>) -> Option<Seq<char>> {
        slug_in(pairs_view(self.slugs@), token)
    }

    /// Whether a token is a NO token.
    pub closed spec fn is_no(self, token: Seq<char>) -> bool {
        views(self.no_tokens@).contains(token)
    }

    /// No tokens known.
    pub fn new() -> (r: Self)
        ensures
            forall|t: Seq<char>| r.slug_of(t) is None && !r.is_no(t),
    {
        let r = TokenRegistry { slugs: Vec::new(), no_tokens: Vec::new() };
        assert(pairs_view(r.slugs@) =~= Seq::<(Seq<char>, Seq<char>)>::empty());
        assert(views(r.no_tokens@) =~= Seq::<Seq<char>>::empty());
        r
    }

    /// Records that `token` trades in market `slug`, and whether it is a NO
    /// token; a later registration of the same token replaces its slug.
    pub fn register_token_mapping(&mut self, token_id: &str, slug: &str, is_no_token: bool)
        ensures
            final(self).slug_of(token_id@) == Some(slug@),
            forall|t: Seq<char>| t != token_id@ ==> final(self).slug_of(t) == old(self).slug_of(t),
            final(self).is_no(token_id@) == (old(self).is_no(token_id@) || is_no_token),
            forall|t: Seq<char>| t != token_id@ ==> final(self).is_no(t) == old(self).is_no(t),
    {
        self.slugs.push((owned(token_id), owned(slug)));
        assert(pairs_view(self.slugs@).drop_last() =~= pairs_view(old(self).slugs@));
        if is_no_token {
            self.no_tokens.push(owned(token_id));
            assert(views(self.no_tokens@) =~= views(old(self).no_tokens@).push(token_id@));
            assert forall|t: Seq<char>| views(self.no_tokens@).contains(t) <==> (views(
                old(self).no_tokens@,
            ).contains(t) || t == token_id@) by {
                crate::crypto::lemma_push_contains_pub(views(old(self).no_tokens@), token_id@, t);
            }
        }
    }

    /// The market a token trades in.
    pub fn get_slug_for_token(&self, token_id: &str) -> (r: Option<&str>)
        ensures
            match r {
                Some(s) => self.slug_of(token_id@) == Some(s@),
                None => self.slug_of(token_id@) is None,
            },
    {
        let mut i = self.slugs.len();
        assert(self.slugs@.take(i as int) =~= self.slugs@);
        while i > 0
            invariant
                i <= self.slugs@.len(),
                slug_in(pairs_view(self.slugs@), token_id@) == slug_in(
                    pairs_view(self.slugs@.take(i as int)),
                    token_id@,
                ),
            decreases i,
        {
            assert(pairs_view(self.slugs@.take(i as int)).drop_last() =~= pairs_view(
                self.slugs@.take(i - 1),
            ));
            if str_eq(self.slugs[i - 1].0.as_str(), token_id) {
                return Some(self.slugs[i - 1].1.as_str());
            }
            i = i - 1;
        }
        None
    }

    /// Whether a token is a NO token.
    pub fn is_no_token(&self, token_id: &str) -> (r: bool)
        ensures
            r == self.is_no(token_id@),
    {
        let mut i: usize = 0;
        while i < self.no_tokens.len()
            invariant
                i <= self.no_tokens@.len(),
                forall|k: int| 0 <= k < i ==> self.no_tokens@[k]@ != token_id@,
            decreases self.no_tokens.len() - i,
        {
            if str_eq(self.no_tokens[i].as_str(), token_id) {
                assert(views(self.no_tokens@)[i as int] == token_id@);
                return true;
            }
            i = i + 1;
        }
        proof {
            if views(self.no_tokens@).contains(token_id@) {
                let k = choose|k: int| 0 <= k < views(self.no_tokens@).len() && views(self.no_tokens@)[k] == token_id@;
                assert(self.no_tokens@[k]@ == token_id@);
            }
        }
        false
    }
}

} // verus!
