//! Decimal text that reads as a floating-point number. The venues send
//! prices and sizes as text; the library decides which text is a number
//! (by the grammar `f64::from_str` documents) and hands the text on.

use vstd::prelude::*;

use crate::json::{str_field, Json};
use crate::text::{all_digits, ascii_lower, ascii_lower_seq, chars_of, is_digit};

verus! {

/// An exponent marker, `e` or `E`.
pub open spec fn is_exp_mark(c: char) -> bool {
    c == 'e' || c == 'E'
}

/// `Digit+ | Digit+ '.' Digit* | Digit* '.' Digit+`: digits and at most one
/// point, with at least one digit.
pub open spec fn is_mantissa(m: Seq<char>) -> bool {
    &&& forall|i: int| 0 <= i < m.len() ==> is_digit(#[trigger] m[i]) || m[i] == '.'
    &&& forall|i: int, j: int| 0 <= i < j < m.len() ==> !(#[trigger] m[i] == '.' && #[trigger] m[j] == '.')
    &&& exists|i: int| 0 <= i < m.len() && is_digit(#[trigger] m[i])
}

/// What follows an exponent marker: `Sign? Digit+`.
pub open spec fn is_exponent_tail(x: Seq<char>) -> bool {
    let d = if x.len() > 0 && (x[0] == '+' || x[0] == '-') {
        x.drop_first()
    } else {
        x
    };
    d.len() > 0 && all_digits(d)
}

/// `Number ::= Mantissa Exp?` with `Exp ::= [eE] Sign? Digit+`.
pub open spec fn is_number_text(b: Seq<char>) -> bool {
    ||| (forall|i: int| 0 <= i < b.len() ==> !is_exp_mark(#[trigger] b[i])) && is_mantissa(b)
    ||| exists|k: int|
        0 <= k < b.len() && is_exp_mark(#[trigger] b[k]) && is_mantissa(b.take(k))
            && is_exponent_tail(b.skip(k + 1))
}

/// The text `f64::from_str` accepts: an optional sign, then `inf`,
/// `infinity` or `nan` in any ASCII case, or a decimal number.
pub open spec fn is_float_text(s: Seq<char>) -> bool {
    let body = if s.len() > 0 && (s[0] == '+' || s[0] == '-') {
        s.drop_first()
    } else {
        s
    };
    let low = ascii_lower_seq(body);
    ||| low == seq!['i', 'n', 'f']
    ||| low == seq!['i', 'n', 'f', 'i', 'n', 'i', 't', 'y']
    ||| low == seq!['n', 'a', 'n']
    ||| is_number_text(body)
}

/// Whether `v[lo..hi]` is a mantissa.
fn mantissa_in(v: &Vec<char>, lo: usize, hi: usize) -> (r: bool)
    requires
        lo <= hi <= v.len(),
    ensures
        r == is_mantissa(v@.subrange(lo as int, hi as int)),
{
    let ghost m = v@.subrange(lo as int, hi as int);
    let mut i = lo;
    let mut dots: usize = 0;
    let mut digit = false;
    while i < hi
        invariant
            lo <= i <= hi <= v.len(),
            m == v@.subrange(lo as int, hi as int),
            dots <= 1,
            forall|k: int| 0 <= k < i - lo ==> is_digit(#[trigger] m[k]) || m[k] == '.',
            dots == 0 ==> forall|k: int| 0 <= k < i - lo ==> m[k] != '.',
            dots == 1 ==> exists|k: int| 0 <= k < i - lo && #[trigger] m[k] == '.',
            forall|a: int, b: int| 0 <= a < b < i - lo ==> !(#[trigger] m[a] == '.' && #[trigger] m[b] == '.'),
            digit == exists|k: int| 0 <= k < i - lo && is_digit(#[trigger] m[k]),
        decreases hi - i,
    {
        let c = v[i];
        assert(m[i - lo] == c);
        if c == '.' {
            if dots == 1 {
                let ghost k = choose|k: int| 0 <= k < i - lo && #[trigger] m[k] == '.';
                assert(m[k] == '.' && m[i - lo] == '.' && k < i - lo);
                return false;
            }
            dots = 1;
        } else if !('0' <= c && c <= '9') {
            assert(!(is_digit(m[i - lo]) || m[i - lo] == '.'));
            return false;
        } else {
            digit = true;
        }
        i = i + 1;
    }
    digit
}

/// Whether `v[lo..hi]` is an exponent tail.
fn exponent_tail_in(v: &Vec<char>, lo: usize, hi: usize) -> (r: bool)
    requires
        lo <= hi <= v.len(),
    ensures
        r == is_exponent_tail(v@.subrange(lo as int, hi as int)),
{
    let ghost x = v@.subrange(lo as int, hi as int);
    let mut a = lo;
    if a < hi && (v[a] == '+' || v[a] == '-') {
        a = a + 1;
    }
    let ghost d = v@.subrange(a as int, hi as int);
    assert(d =~= (if x.len() > 0 && (x[0] == '+' || x[0] == '-') {
        x.drop_first()
    } else {
        x
    }));
    if a == hi {
        return false;
    }
    let mut i = a;
    while i < hi
        invariant
            a <= i <= hi <= v.len(),
            d == v@.subrange(a as int, hi as int),
            x == v@.subrange(lo as int, hi as int),
            d == (if x.len() > 0 && (x[0] == '+' || x[0] == '-') {
                x.drop_first()
            } else {
                x
            }),
            forall|k: int| 0 <= k < i - a ==> is_digit(#[trigger] d[k]),
        decreases hi - i,
    {
        assert(d[i - a] == v@[i as int]);
        if !('0' <= v[i] && v[i] <= '9') {
            assert(!is_digit(d[i - a]));
            return false;
        }
        i = i + 1;
    }
    true
}

/// Whether `s` is text that `f64::from_str` reads as a number.
pub fn is_float(s: &str) -> (r: bool)
    ensures
        r == is_float_text(s@),
{
    let v = chars_of(s);
    let mut a: usize = 0;
    if v.len() > 0 && (v[0] == '+' || v[0] == '-') {
        a = 1;
    }
    let ghost body = v@.subrange(a as int, v.len() as int);
    assert(body =~= (if s@.len() > 0 && (s@[0] == '+' || s@[0] == '-') {
        s@.drop_first()
    } else {
        s@
    }));
    // the three words, in any ASCII case
    let n = v.len() - a;
    if n == 3 || n == 8 {
        let mut low: Vec<char> = Vec::new();
        let mut i = a;
        while i < v.len()
            invariant
                a <= i <= v.len(),
                body == v@.subrange(a as int, v.len() as int),
                low@ == ascii_lower_seq(v@.subrange(a as int, i as int)),
            decreases v.len() - i,
        {
            let c = v[i];
            let d = if 'A' <= c && c <= 'Z' {
                ((c as u8) + 32) as char
            } else {
                c
            };
            low.push(d);
            assert(ascii_lower_seq(v@.subrange(a as int, i + 1)) =~= ascii_lower_seq(
                v@.subrange(a as int, i as int),
            ).push(ascii_lower(c)));
            i = i + 1;
        }
        if n == 3 && low[0] == 'i' && low[1] == 'n' && low[2] == 'f' {
            assert(low@ =~= seq!['i', 'n', 'f']);
            return true;
        }
        if n == 3 && low[0] == 'n' && low[1] == 'a' && low[2] == 'n' {
            assert(low@ =~= seq!['n', 'a', 'n']);
            return true;
        }
        if n == 8 && low[0] == 'i' && low[1] == 'n' && low[2] == 'f' && low[3] == 'i' && low[4]
            == 'n' && low[5] == 'i' && low[6] == 't' && low[7] == 'y' {
            assert(low@ =~= seq!['i', 'n', 'f', 'i', 'n', 'i', 't', 'y']);
            return true;
        }
        assert(low@ != seq!['i', 'n', 'f']);
        assert(low@ != seq!['n', 'a', 'n']);
        assert(low@ != seq!['i', 'n', 'f', 'i', 'n', 'i', 't', 'y']);
    } else {
        assert(ascii_lower_seq(body).len() == n);
    }
    // the first exponent marker, if any
    let mut k = a;
    while k < v.len() && !(v[k] == 'e' || v[k] == 'E')
        invariant
            a <= k <= v.len(),
            forall|j: int| a <= j < k ==> !is_exp_mark(#[trigger] v@[j]),
        decreases v.len() - k,
    {
        k = k + 1;
    }
    if k == v.len() {
        assert forall|i: int| 0 <= i < body.len() implies !is_exp_mark(#[trigger] body[i]) by {
            assert(body[i] == v@[a + i]);
        }
        mantissa_in(&v, a, v.len())
    } else {
        let m = mantissa_in(&v, a, k);
        let t = exponent_tail_in(&v, k + 1, v.len());
        let ghost kb = k - a;
        assert(body.take(kb) =~= v@.subrange(a as int, k as int));
        assert(body.skip(kb + 1) =~= v@.subrange(k + 1, v.len() as int));
        assert(is_exp_mark(body[kb]));
        if m && t {
            assert(is_number_text(body));
            true
        } else {
            assert forall|j: int|
                0 <= j < body.len() && is_exp_mark(#[trigger] body[j]) && is_mantissa(body.take(j))
                    && is_exponent_tail(body.skip(j + 1)) implies false by {
                if j > kb {
                    assert(body.take(j)[kb] == body[kb]);
                } else if j < kb {
                    assert(body[j] == v@[a + j]);
                }
            }
            false
        }
    }
}

/// `s` without a leading sign.
pub open spec fn unsigned_body(s: Seq<char>) -> Seq<char> {
    if s.len() > 0 && (s[0] == '+' || s[0] == '-') {
        s.drop_first()
    } else {
        s
    }
}

/// A digit from 1 to 9 stands before any exponent marker of `b`.
pub open spec fn has_nonzero_lead(b: Seq<char>) -> bool {
    exists|i: int|
        0 <= i < b.len() && '1' <= #[trigger] b[i] && b[i] <= '9' && (forall|j: int|
            0 <= j < i ==> !is_exp_mark(b[j]))
}

/// Whether number text `s` does not stand for a value at or below zero:
/// `nan` with either sign, or, without a minus sign, `inf`, `infinity` or
/// a decimal with a non-zero digit in its mantissa.
pub open spec fn not_at_most_zero(s: Seq<char>) -> bool {
    let low = ascii_lower_seq(unsigned_body(s));
    ||| low == seq!['n', 'a', 'n']
    ||| !(s.len() > 0 && s[0] == '-') && (low == seq!['i', 'n', 'f'] || low == seq![
        'i',
        'n',
        'f',
        'i',
        'n',
        'i',
        't',
        'y',
    ] || has_nonzero_lead(unsigned_body(s)))
}

/// Whether number text `s` does not stand for a value at or below zero.
pub fn above_zero_text(s: &str) -> (r: bool)
    ensures
        r == not_at_most_zero(s@),
{
    let v = chars_of(s);
    let neg = v.len() > 0 && v[0] == '-';
    let mut a: usize = 0;
    if v.len() > 0 && (v[0] == '+' || v[0] == '-') {
        a = 1;
    }
    let ghost body = v@.subrange(a as int, v.len() as int);
    assert(body =~= unsigned_body(s@));
    let n = v.len() - a;
    if n == 3 || n == 8 {
        let mut low: Vec<char> = Vec::new();
        let mut i = a;
        while i < v.len()
            invariant
                a <= i <= v.len(),
                body == v@.subrange(a as int, v.len() as int),
                low@ == ascii_lower_seq(v@.subrange(a as int, i as int)),
            decreases v.len() - i,
        {
            let c = v[i];
            let d = if 'A' <= c && c <= 'Z' {
                ((c as u8) + 32) as char
            } else {
                c
            };
            low.push(d);
            assert(ascii_lower_seq(v@.subrange(a as int, i + 1)) =~= ascii_lower_seq(
                v@.subrange(a as int, i as int),
            ).push(ascii_lower(c)));
            i = i + 1;
        }
        if n == 3 && low[0] == 'n' && low[1] == 'a' && low[2] == 'n' {
            assert(low@ =~= seq!['n', 'a', 'n']);
            return true;
        }
        if n == 3 && low[0] == 'i' && low[1] == 'n' && low[2] == 'f' {
            assert(low@ =~= seq!['i', 'n', 'f']);
            return !neg;
        }
        if n == 8 && low[0] == 'i' && low[1] == 'n' && low[2] == 'f' && low[3] == 'i' && low[4]
            == 'n' && low[5] == 'i' && low[6] == 't' && low[7] == 'y' {
            assert(low@ =~= seq!['i', 'n', 'f', 'i', 'n', 'i', 't', 'y']);
            return !neg;
        }
        assert(low@ != seq!['i', 'n', 'f']);
        assert(low@ != seq!['n', 'a', 'n']);
        assert(low@ != seq!['i', 'n', 'f', 'i', 'n', 'i', 't', 'y']);
    } else {
        assert(ascii_lower_seq(body).len() == n);
    }
    if neg {
        return false;
    }
    let mut k = a;
    while k < v.len() && !(v[k] == 'e' || v[k] == 'E')
        invariant
            a <= k <= v.len(),
            v@ == s@,
            body == v@.subrange(a as int, v.len() as int),
            body == unsigned_body(s@),
            !(s@.len() > 0 && s@[0] == '-'),
            forall|j: int| a <= j < k ==> !is_exp_mark(#[trigger] v@[j]) && !('1' <= v@[j] && v@[j] <= '9'),
        decreases v.len() - k,
    {
        if '1' <= v[k] && v[k] <= '9' {
            let ghost w = k - a;
            assert(body[w] == v@[k as int]);
            assert forall|j: int| 0 <= j < w implies !is_exp_mark(body[j]) by {
                assert(body[j] == v@[a + j]);
            }
            assert(has_nonzero_lead(body));
            return true;
        }
        k = k + 1;
    }
    assert forall|i: int|
        0 <= i < body.len() && '1' <= #[trigger] body[i] && body[i] <= '9' implies !(forall|j: int|
        0 <= j < i ==> !is_exp_mark(body[j])) by {
        assert(body[i] == v@[a + i]);
        if a + i < k {
        } else {
            assert(k < v.len());
            assert(body[k - a] == v@[k as int]);
            assert(k - a != i);
        }
    }
    false
}

/// Whether the amount `v` is not at or below zero: a positive integer, or
/// number text that `not_at_most_zero` keeps.
pub open spec fn amount_kept(v: Json) -> bool {
    match v {
        Json::UInt(u) => u > 0,
        Json::NegInt(i) => i > 0,
        Json::Float(t) => not_at_most_zero(t@),
        Json::Str(t) => not_at_most_zero(t@),
        _ => false,
    }
}

/// Whether the amount `v` is not at or below zero.
pub fn amount_kept_of(v: &Json) -> (r: bool)
    ensures
        r == amount_kept(*v),
{
    match v {
        Json::UInt(u) => *u > 0,
        Json::NegInt(i) => *i > 0,
        Json::Float(t) => above_zero_text(t.as_str()),
        Json::Str(t) => above_zero_text(t.as_str()),
        _ => false,
    }
}

/// The text of member `key` of `j` when it is a string that reads as a
/// number (`obj.get(key).and_then(as_str).and_then(|s| s.parse().ok())`).
pub open spec fn float_field(j: Json, key: Seq<char>) -> Option<Seq<char>> {
    match str_field(j, key) {
        Some(t) => if is_float_text(t) {
            Some(t)
        } else {
            None
        },
        None => None,
    }
}

/// Reads member `key` of `j` as number text.
pub fn float_text_at(j: &Json, key: &str) -> (r: Option<String>)
    ensures
        crate::json::opt_view(r) == float_field(*j, key@),
{
    match j.get_str(key) {
        Some(t) => if is_float(t) {
            Some(t.to_owned())
        } else {
            None
        },
        None => None,
    }
}

} // verus!
