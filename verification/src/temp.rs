//! Fixed-point temperature values.
//!
//! A sampling temperature is a small decimal number validated against the
//! domain [0.0, 2.0]. The crate stores it in thousandths: `milli` thousandths,
//! a flag for digits beyond the third fractional place (they only matter when
//! deciding whether a value exceeds the domain's upper bound exactly), and a
//! sign flag.

use vstd::prelude::*;
use crate::text::{
    spec_is_digit, spec_digit_val, spec_digit_char, spec_digits_val, spec_dec_digits,
    spec_digits_only, chars_vec, digit_char, push_char, u64_to_string, parse_digits_range,
};

verus! {

/// A decimal number in thousandths. The represented value is
/// `(milli + e) / 1000`, negated when `neg` holds, where `e` is zero when
/// `extra` is false and some amount strictly between zero and one otherwise.
#[derive(Clone, Copy, Debug, PartialEq, Eq, Structural)]
pub struct Temp {
    /// Absolute value in thousandths, truncated after the third fractional digit.
    pub milli: u64,
    /// Whether nonzero digits beyond the third fractional place were truncated.
    pub extra: bool,
    /// Whether the value is negative.
    pub neg: bool,
}

impl Temp {
    /// An exact, non-negative value of `m` thousandths.
    pub fn from_milli(m: u64) -> (t: Temp)
        ensures
            t == (Temp { milli: m, extra: false, neg: false }),
    {
        Temp { milli: m, extra: false, neg: false }
    }

    /// Whether the represented value lies in the domain [0.0, 2.0].
    pub open spec fn spec_in_range(self) -> bool {
        &&& (self.neg ==> self.milli == 0 && !self.extra)
        &&& (self.milli < 2000 || (self.milli == 2000 && !self.extra))
    }

    /// Executable test for [`Temp::spec_in_range`].
    pub fn in_range(&self) -> (r: bool)
        ensures
            r == self.spec_in_range(),
    {
        (!self.neg || (self.milli == 0 && !self.extra)) && (self.milli < 2000 || (self.milli
            == 2000 && !self.extra))
    }
}

/// The fractional digits rendered for `f` thousandths (`f < 1000`): three
/// digits with trailing zeros removed, at least one digit.
pub open spec fn spec_frac_chars(f: nat) -> Seq<char> {
    if f % 10 != 0 {
        seq![
            spec_digit_char(f / 100),
            spec_digit_char((f / 10) % 10),
            spec_digit_char(f % 10),
        ]
    } else if (f / 10) % 10 != 0 {
        seq![spec_digit_char(f / 100), spec_digit_char((f / 10) % 10)]
    } else {
        seq![spec_digit_char(f / 100)]
    }
}

/// The decimal rendering of a temperature: sign, integer part, a dot, and
/// the fractional part with trailing zeros removed (at least one digit).
pub open spec fn spec_temp_chars(t: Temp) -> Seq<char> {
    let mag = spec_dec_digits(t.milli as nat / 1000) + seq!['.'] + spec_frac_chars(
        t.milli as nat % 1000,
    );
    if t.neg {
        seq!['-'] + mag
    } else {
        mag
    }
}

/// Renders a temperature as a decimal string, such as `0.6`, `1.0` or `2.05`.
pub fn temp_to_string(t: &Temp) -> (r: String)
    ensures
        r@ == spec_temp_chars(*t),
{
    let mut r = String::new();
    if t.neg {
        push_char(&mut r, '-');
    }
    let units = u64_to_string(t.milli / 1000);
    r.append(units.as_str());
    push_char(&mut r, '.');
    let f = t.milli % 1000;
    push_char(&mut r, digit_char(f / 100));
    if f % 10 != 0 {
        push_char(&mut r, digit_char((f / 10) % 10));
        push_char(&mut r, digit_char(f % 10));
    } else if (f / 10) % 10 != 0 {
        push_char(&mut r, digit_char((f / 10) % 10));
    }
    proof {
        assert(r@ =~= spec_temp_chars(*t));
    }
    r
}

/// Where the first dot stands in a sequence, or the sequence's length when
/// no dot occurs.
pub open spec fn spec_find_dot(s: Seq<char>) -> int
    decreases s.len(),
{
    if s.len() == 0 {
        0
    } else if s[0] == '.' {
        0
    } else {
        1 + spec_find_dot(s.drop_first())
    }
}

proof fn lemma_find_dot_at(s: Seq<char>, k: int)
    requires
        0 <= k <= s.len(),
        forall|j: int| 0 <= j < k ==> s[j] != '.',
        k < s.len() ==> s[k] == '.',
    ensures
        spec_find_dot(s) == k,
    decreases k,
{
    if k > 0 {
        lemma_find_dot_at(s.drop_first(), k - 1);
    }
}

/// The sign-stripped body of a decimal literal, and whether the sign was `-`.
pub open spec fn spec_strip_sign(s: Seq<char>) -> (Seq<char>, bool) {
    if s.len() > 0 && (s[0] == '+' || s[0] == '-') {
        (s.drop_first(), s[0] == '-')
    } else {
        (s, false)
    }
}

/// Whether a sequence is a plain decimal literal: an optional sign, then
/// digits with at most one dot, with at least one digit.
pub open spec fn spec_is_decimal(s: Seq<char>) -> bool {
    let (b, _neg) = spec_strip_sign(s);
    let d = spec_find_dot(b);
    let ip = b.subrange(0, if d <= b.len() { d } else { b.len() as int });
    let fp = if d < b.len() {
        b.subrange(d + 1, b.len() as int)
    } else {
        Seq::<char>::empty()
    };
    &&& spec_digits_only(ip)
    &&& spec_digits_only(fp)
    &&& (ip.len() > 0 || fp.len() > 0)
}

/// The integer-part digits of a decimal literal.
pub open spec fn spec_dec_int_part(s: Seq<char>) -> Seq<char> {
    let (b, _neg) = spec_strip_sign(s);
    let d = spec_find_dot(b);
    b.subrange(0, if d <= b.len() { d } else { b.len() as int })
}

/// The fractional-part digits of a decimal literal.
pub open spec fn spec_dec_frac_part(s: Seq<char>) -> Seq<char> {
    let (b, _neg) = spec_strip_sign(s);
    let d = spec_find_dot(b);
    if d < b.len() {
        b.subrange(d + 1, b.len() as int)
    } else {
        Seq::<char>::empty()
    }
}

/// Whether a decimal literal carries a leading minus sign.
pub open spec fn spec_dec_neg(s: Seq<char>) -> bool {
    spec_strip_sign(s).1
}

/// The first three fractional digits read as thousandths.
pub open spec fn spec_frac_milli(fp: Seq<char>) -> nat {
    (if fp.len() > 0 { spec_digit_val(fp[0]) } else { 0 }) * 100 + (if fp.len() > 1 {
        spec_digit_val(fp[1])
    } else {
        0
    }) * 10 + (if fp.len() > 2 { spec_digit_val(fp[2]) } else { 0 })
}

/// Whether nonzero fractional digits stand beyond the third place.
pub open spec fn spec_frac_extra(fp: Seq<char>) -> bool {
    exists|i: int| 3 <= i < fp.len() && fp[i] != '0'
}

/// The thousandths encoded by a decimal literal.
pub open spec fn spec_dec_milli(s: Seq<char>) -> nat {
    spec_digits_val(spec_dec_int_part(s)) * 1000 + spec_frac_milli(spec_dec_frac_part(s))
}

/// The temperature a plain decimal literal parses to, when it is one and
/// its thousandths fit.
pub open spec fn spec_parse_temp(s: Seq<char>) -> Option<Temp> {
    if spec_is_decimal(s) && spec_dec_milli(s) <= u64::MAX {
        Some(
            Temp {
                milli: spec_dec_milli(s) as u64,
                extra: spec_frac_extra(spec_dec_frac_part(s)),
                neg: spec_dec_neg(s),
            },
        )
    } else {
        None
    }
}

/// Parses a plain decimal literal (optional sign, digits, at most one dot,
/// at least one digit) into thousandths, truncating after the third
/// fractional digit and recording truncated nonzero digits in `extra`.
/// Only this plain notation is accepted: exponent forms and the special
/// float spellings are rejected, and values are kept in thousandths.
#[verifier::rlimit(100)]
pub fn parse_temp(s: &str) -> (r: Option<Temp>)
    ensures
        r == spec_parse_temp(s@),
{
    let cs = chars_vec(s);
    let n = cs.len();
    let start: usize = if n > 0 && (cs[0] == '+' || cs[0] == '-') {
        1
    } else {
        0
    };
    let neg = n > 0 && cs[0] == '-';
    let ghost b = s@.subrange(start as int, n as int);
    proof {
        assert(spec_strip_sign(s@).0 =~= b);
        assert(spec_strip_sign(s@).1 == neg);
    }
    let mut d: usize = start;
    while d < n && cs[d] != '.'
        invariant
            start <= d <= n,
            n == cs.len(),
            cs@ == s@,
            forall|j: int| start <= j < d ==> s@[j] != '.',
        decreases n - d,
    {
        d = d + 1;
    }
    proof {
        lemma_find_dot_at(b, d - start);
        assert(spec_dec_int_part(s@) =~= cs@.subrange(start as int, d as int));
    }
    let fstart: usize = if d < n {
        d + 1
    } else {
        n
    };
    proof {
        assert(spec_dec_frac_part(s@) =~= cs@.subrange(fstart as int, n as int));
    }
    let ghost fp = cs@.subrange(fstart as int, n as int);
    if start == d && fstart == n {
        return None;
    }
    let ip_val = match parse_digits_range(&cs, start, d) {
        Some(v) => v,
        None => {
            proof {
                if spec_digits_val(spec_dec_int_part(s@)) > u64::MAX {
                    assert(spec_digits_val(spec_dec_int_part(s@)) * 1000 >= spec_digits_val(
                        spec_dec_int_part(s@),
                    ) * 1) by (nonlinear_arith);
                }
            }
            return None;
        },
    };
    let mut i: usize = fstart;
    let mut extra = false;
    while i < n
        invariant
            fstart <= i <= n,
            n == cs.len(),
            cs@ == s@,
            fp == cs@.subrange(fstart as int, n as int),
            fp == spec_dec_frac_part(s@),
            forall|j: int| fstart <= j < i ==> spec_is_digit(s@[j]),
            extra == exists|k: int| 3 <= k < i - fstart && fp[k] != '0',
        decreases n - i,
    {
        let c = cs[i];
        let cv = c as u32;
        if cv < 48 || cv > 57 {
            proof {
                assert(fp[i - fstart] == s@[i as int]);
                assert(!spec_is_digit(fp[i - fstart]));
            }
            return None;
        }
        if i - fstart >= 3 && c != '0' {
            proof {
                assert(fp[i - fstart] == s@[i as int]);
            }
            extra = true;
        }
        i = i + 1;
    }
    let flen = n - fstart;
    let f0: u64 = if flen > 0 {
        (cs[fstart] as u32 - 48) as u64
    } else {
        0
    };
    let f1: u64 = if flen > 1 {
        (cs[fstart + 1] as u32 - 48) as u64
    } else {
        0
    };
    let f2: u64 = if flen > 2 {
        (cs[fstart + 2] as u32 - 48) as u64
    } else {
        0
    };
    let frac: u64 = f0 * 100 + f1 * 10 + f2;
    proof {
        assert(frac == spec_frac_milli(spec_dec_frac_part(s@)));
        assert(ip_val == spec_digits_val(spec_dec_int_part(s@)));
        assert(spec_dec_milli(s@) == ip_val * 1000 + frac);
    }
    let milli = match ip_val.checked_mul(1000) {
        Some(m) => match m.checked_add(frac) {
            Some(t) => t,
            None => {
                return None;
            },
        },
        None => {
            return None;
        },
    };
    Some(Temp { milli, extra, neg })
}

} // verus!
