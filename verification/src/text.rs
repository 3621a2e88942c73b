//! Character-level text utilities: trimming, integer parsing and rendering.
//!
//! Resolution sources (command input, environment, profile fields) arrive as
//! strings; every textual rule of the request layer (trimming, numeric
//! parsing, case folding) is defined here over sequences of characters.

use vstd::prelude::*;
use vstd::string::StrSliceExecFns;
use vstd::string::StringExecFns;

verus! {

/// Relies on `String::push`: appends one character at the end.
#[verifier::external_body]
pub(crate) fn push_char(s: &mut String, c: char)
    ensures
        final(s)@ == old(s)@.push(c),
{
    s.push(c)
}

/// Collects the characters of a string slice into a vector.
pub fn chars_vec(s: &str) -> (r: Vec<char>)
    ensures
        r@ == s@,
{
    let n = s.unicode_len();
    let mut r: Vec<char> = Vec::new();
    let mut i: usize = 0;
    while i < n
        invariant
            i <= n,
            n == s@.len(),
            r@ == s@.subrange(0, i as int),
        decreases n - i,
    {
        let c = s.get_char(i);
        r.push(c);
        i = i + 1;
        proof {
            assert(r@ =~= s@.subrange(0, i as int));
        }
    }
    proof {
        assert(r@ =~= s@);
    }
    r
}

/// The whitespace characters removed by trimming: the Unicode white-space
/// code points, as `char::is_whitespace` classifies them.
pub open spec fn spec_is_ws(c: char) -> bool {
    ||| c == ' '
    ||| c == '\t'
    ||| c == '\n'
    ||| c == '\u{b}'
    ||| c == '\u{c}'
    ||| c == '\r'
    ||| c == '\u{85}'
    ||| c == '\u{a0}'
    ||| c == '\u{1680}'
    ||| (0x2000 <= c as u32 && c as u32 <= 0x200a)
    ||| c == '\u{2028}'
    ||| c == '\u{2029}'
    ||| c == '\u{202f}'
    ||| c == '\u{205f}'
    ||| c == '\u{3000}'
}

/// Executable test for [`spec_is_ws`].
pub fn is_ws(c: char) -> (r: bool)
    ensures
        r == spec_is_ws(c),
{
    c == ' ' || c == '\t' || c == '\n' || c == '\u{b}' || c == '\u{c}' || c == '\r' || c
        == '\u{85}' || c == '\u{a0}' || c == '\u{1680}' || (0x2000 <= c as u32 && c as u32
        <= 0x200a) || c == '\u{2028}' || c == '\u{2029}' || c == '\u{202f}' || c == '\u{205f}'
        || c == '\u{3000}'
}

/// A sequence with its leading whitespace removed.
pub open spec fn spec_trim_front(s: Seq<char>) -> Seq<char>
    decreases s.len(),
{
    if s.len() > 0 && spec_is_ws(s[0]) {
        spec_trim_front(s.drop_first())
    } else {
        s
    }
}

/// A sequence with its trailing whitespace removed.
pub open spec fn spec_trim_back(s: Seq<char>) -> Seq<char>
    decreases s.len(),
{
    if s.len() > 0 && spec_is_ws(s.last()) {
        spec_trim_back(s.drop_last())
    } else {
        s
    }
}

/// A sequence with whitespace removed from both ends.
pub open spec fn spec_trim(s: Seq<char>) -> Seq<char> {
    spec_trim_back(spec_trim_front(s))
}

proof fn lemma_trim_front_at(s: Seq<char>, k: int)
    requires
        0 <= k <= s.len(),
        forall|j: int| 0 <= j < k ==> spec_is_ws(s[j]),
        k < s.len() ==> !spec_is_ws(s[k]),
    ensures
        spec_trim_front(s) == s.subrange(k, s.len() as int),
    decreases k,
{
    if k == 0 {
        assert(s.subrange(0, s.len() as int) =~= s);
    } else {
        lemma_trim_front_at(s.drop_first(), k - 1);
        assert(s.drop_first().subrange(k - 1, s.drop_first().len() as int) =~= s.subrange(
            k,
            s.len() as int,
        ));
    }
}

proof fn lemma_trim_back_at(s: Seq<char>, k: int)
    requires
        0 <= k <= s.len(),
        forall|j: int| k <= j < s.len() ==> spec_is_ws(s[j]),
        k > 0 ==> !spec_is_ws(s[k - 1]),
    ensures
        spec_trim_back(s) == s.subrange(0, k),
    decreases s.len() - k,
{
    if k == s.len() {
        if s.len() > 0 && spec_is_ws(s.last()) {
            assert(!spec_is_ws(s[k - 1]));
            assert(false);
        }
        assert(s.subrange(0, k) =~= s);
    } else {
        lemma_trim_back_at(s.drop_last(), k);
        assert(s.drop_last().subrange(0, k) =~= s.subrange(0, k));
    }
}

/// Removes leading and trailing whitespace from a string.
pub fn trim_string(s: &str) -> (r: String)
    ensures
        r@ == spec_trim(s@),
{
    let cs = chars_vec(s);
    let n = cs.len();
    let mut start: usize = 0;
    while start < n && is_ws(cs[start])
        invariant
            start <= n,
            n == cs.len(),
            cs@ == s@,
            forall|j: int| 0 <= j < start ==> spec_is_ws(s@[j]),
        decreases n - start,
    {
        start = start + 1;
    }
    let mut end: usize = n;
    while end > start && is_ws(cs[end - 1])
        invariant
            start <= end <= n,
            n == cs.len(),
            cs@ == s@,
            forall|j: int| 0 <= j < start ==> spec_is_ws(s@[j]),
            start < n ==> !spec_is_ws(s@[start as int]),
            forall|j: int| end <= j < n ==> spec_is_ws(s@[j]),
        decreases end,
    {
        end = end - 1;
    }
    proof {
        lemma_trim_front_at(s@, start as int);
        let t = s@.subrange(start as int, n as int);
        lemma_trim_back_at(t, end - start);
        assert(t.subrange(0, end - start) =~= s@.subrange(start as int, end as int));
    }
    let mut r = String::new();
    let mut i: usize = start;
    while i < end
        invariant
            start <= i <= end <= n,
            n == cs.len(),
            cs@ == s@,
            r@ == s@.subrange(start as int, i as int),
        decreases end - i,
    {
        push_char(&mut r, cs[i]);
        i = i + 1;
        proof {
            assert(r@ =~= s@.subrange(start as int, i as int));
        }
    }
    r
}

/// Whether a string holds nothing but whitespace.
pub fn is_blank(s: &str) -> (r: bool)
    ensures
        r == (spec_trim(s@).len() == 0),
{
    let trimmed = trim_string(s);
    trimmed.as_str().unicode_len() == 0
}

/// Whether a character is a decimal digit.
pub open spec fn spec_is_digit(c: char) -> bool {
    48 <= c as u32 && c as u32 <= 57
}

/// The numeric value of a decimal digit character.
pub open spec fn spec_digit_val(c: char) -> nat {
    (c as u32 - 48) as nat
}

/// The decimal digit character for a value below ten.
pub open spec fn spec_digit_char(d: nat) -> char {
    if d == 0 {
        '0'
    } else if d == 1 {
        '1'
    } else if d == 2 {
        '2'
    } else if d == 3 {
        '3'
    } else if d == 4 {
        '4'
    } else if d == 5 {
        '5'
    } else if d == 6 {
        '6'
    } else if d == 7 {
        '7'
    } else if d == 8 {
        '8'
    } else {
        '9'
    }
}

/// Executable digit-to-character conversion.
pub fn digit_char(d: u64) -> (c: char)
    requires
        d < 10,
    ensures
        c == spec_digit_char(d as nat),
{
    if d == 0 {
        '0'
    } else if d == 1 {
        '1'
    } else if d == 2 {
        '2'
    } else if d == 3 {
        '3'
    } else if d == 4 {
        '4'
    } else if d == 5 {
        '5'
    } else if d == 6 {
        '6'
    } else if d == 7 {
        '7'
    } else if d == 8 {
        '8'
    } else {
        '9'
    }
}

/// The value of a sequence of decimal digit characters, most significant first.
pub open spec fn spec_digits_val(s: Seq<char>) -> nat
    decreases s.len(),
{
    if s.len() == 0 {
        0
    } else {
        spec_digits_val(s.drop_last()) * 10 + spec_digit_val(s.last())
    }
}

/// Whether a sequence is one or more decimal digit characters.
pub open spec fn spec_all_digits(s: Seq<char>) -> bool {
    s.len() > 0 && forall|i: int| 0 <= i < s.len() ==> spec_is_digit(s[i])
}

/// Whether every character of a sequence is a decimal digit (an empty
/// sequence qualifies).
pub open spec fn spec_digits_only(s: Seq<char>) -> bool {
    forall|i: int| 0 <= i < s.len() ==> spec_is_digit(s[i])
}

/// The digit part of an unsigned integer literal: an optional leading `+`
/// sign is skipped.
pub open spec fn spec_uint_body(s: Seq<char>) -> Seq<char> {
    if s.len() > 0 && s[0] == '+' {
        s.drop_first()
    } else {
        s
    }
}

/// Whether a sequence is a well-formed unsigned decimal integer.
pub open spec fn spec_is_uint(s: Seq<char>) -> bool {
    spec_all_digits(spec_uint_body(s))
}

/// The value of a well-formed unsigned decimal integer.
pub open spec fn spec_uint_val(s: Seq<char>) -> nat {
    spec_digits_val(spec_uint_body(s))
}

proof fn lemma_digits_val_prefix_grows(s: Seq<char>, i: int)
    requires
        0 <= i <= s.len(),
    ensures
        spec_digits_val(s.subrange(0, i)) <= spec_digits_val(s),
    decreases s.len() - i,
{
    if i == s.len() {
        assert(s.subrange(0, i) =~= s);
    } else {
        let t = s.subrange(0, i + 1);
        assert(t.drop_last() =~= s.subrange(0, i));
        assert(spec_digits_val(s.subrange(0, i)) <= spec_digits_val(t));
        lemma_digits_val_prefix_grows(s, i + 1);
    }
}

/// The unsigned 64-bit integer a string parses to: an optional `+` sign
/// followed by one or more digits, as `str::parse::<u64>` accepts, and the
/// value must fit.
pub open spec fn spec_parse_u64(s: Seq<char>) -> Option<u64> {
    if spec_is_uint(s) && spec_uint_val(s) <= u64::MAX {
        Some(spec_uint_val(s) as u64)
    } else {
        None
    }
}

/// The unsigned 32-bit integer a string parses to.
pub open spec fn spec_parse_u32(s: Seq<char>) -> Option<u32> {
    if spec_is_uint(s) && spec_uint_val(s) <= u32::MAX {
        Some(spec_uint_val(s) as u32)
    } else {
        None
    }
}

/// Parses a string as an unsigned 64-bit decimal integer.
pub fn parse_u64(s: &str) -> (r: Option<u64>)
    ensures
        r == spec_parse_u64(s@),
{
    let cs = chars_vec(s);
    let n = cs.len();
    let start: usize = if n > 0 && cs[0] == '+' {
        1
    } else {
        0
    };
    proof {
        assert(spec_uint_body(s@) =~= s@.subrange(start as int, n as int));
    }
    if start == n {
        return None;
    }
    let ghost body = s@.subrange(start as int, n as int);
    let mut acc: u64 = 0;
    let mut i: usize = start;
    while i < n
        invariant
            start <= i <= n,
            n == cs.len(),
            cs@ == s@,
            body == s@.subrange(start as int, n as int),
            spec_uint_body(s@) == body,
            forall|j: int| start <= j < i ==> spec_is_digit(s@[j]),
            acc == spec_digits_val(body.subrange(0, i - start)),
        decreases n - i,
    {
        let c = cs[i];
        let cv = c as u32;
        if cv < 48 || cv > 57 {
            proof {
                assert(body[i - start] == s@[i as int]);
                assert(!spec_is_digit(body[i - start]));
            }
            return None;
        }
        let d: u64 = (cv - 48) as u64;
        proof {
            assert(body.subrange(0, i + 1 - start).drop_last() =~= body.subrange(0, i - start));
            assert(body.subrange(0, i + 1 - start).last() == s@[i as int]);
        }
        let next = match acc.checked_mul(10) {
            Some(t) => t.checked_add(d),
            None => None,
        };
        match next {
            Some(v) => {
                acc = v;
            },
            None => {
                proof {
                    assert(spec_digits_val(body.subrange(0, i + 1 - start)) > u64::MAX);
                    lemma_digits_val_prefix_grows(body, i + 1 - start);
                }
                return None;
            },
        }
        i = i + 1;
    }
    proof {
        assert(body.subrange(0, n - start) =~= body);
    }
    Some(acc)
}

/// Reads the digit characters `cs[from..to]` as an unsigned 64-bit integer;
/// an empty range reads as zero.
pub fn parse_digits_range(cs: &Vec<char>, from: usize, to: usize) -> (r: Option<u64>)
    requires
        from <= to <= cs.len(),
    ensures
        match r {
            Some(v) => spec_digits_only(cs@.subrange(from as int, to as int)) && spec_digits_val(
                cs@.subrange(from as int, to as int),
            ) <= u64::MAX && v == spec_digits_val(cs@.subrange(from as int, to as int)),
            None => !spec_digits_only(cs@.subrange(from as int, to as int)) || spec_digits_val(
                cs@.subrange(from as int, to as int),
            ) > u64::MAX,
        },
{
    let ghost body = cs@.subrange(from as int, to as int);
    let mut acc: u64 = 0;
    let mut i: usize = from;
    while i < to
        invariant
            from <= i <= to <= cs.len(),
            body == cs@.subrange(from as int, to as int),
            forall|j: int| from <= j < i ==> spec_is_digit(cs@[j]),
            acc == spec_digits_val(body.subrange(0, i - from)),
        decreases to - i,
    {
        let c = cs[i];
        let cv = c as u32;
        if cv < 48 || cv > 57 {
            proof {
                assert(body[i - from] == cs@[i as int]);
                assert(!spec_is_digit(body[i - from]));
            }
            return None;
        }
        let d: u64 = (cv - 48) as u64;
        proof {
            assert(body.subrange(0, i + 1 - from).drop_last() =~= body.subrange(0, i - from));
            assert(body.subrange(0, i + 1 - from).last() == cs@[i as int]);
        }
        let next = match acc.checked_mul(10) {
            Some(t) => t.checked_add(d),
            None => None,
        };
        match next {
            Some(v) => {
                acc = v;
            },
            None => {
                proof {
                    assert(spec_digits_val(body.subrange(0, i + 1 - from)) > u64::MAX);
                    lemma_digits_val_prefix_grows(body, i + 1 - from);
                }
                return None;
            },
        }
        i = i + 1;
    }
    proof {
        assert(body.subrange(0, to - from) =~= body);
    }
    Some(acc)
}

/// Parses a string as an unsigned 32-bit decimal integer.
pub fn parse_u32(s: &str) -> (r: Option<u32>)
    ensures
        r == spec_parse_u32(s@),
{
    match parse_u64(s) {
        Some(v) => {
            if v <= u32::MAX as u64 {
                Some(v as u32)
            } else {
                None
            }
        },
        None => None,
    }
}

/// The decimal rendering of a natural number, without sign or padding.
pub open spec fn spec_dec_digits(n: nat) -> Seq<char>
    decreases n,
{
    if n < 10 {
        seq![spec_digit_char(n)]
    } else {
        spec_dec_digits(n / 10).push(spec_digit_char(n % 10))
    }
}

/// Renders an unsigned 64-bit integer in decimal.
pub fn u64_to_string(n: u64) -> (r: String)
    ensures
        r@ == spec_dec_digits(n as nat),
    decreases n,
{
    if n < 10 {
        let mut r = String::new();
        push_char(&mut r, digit_char(n));
        proof {
            assert(r@ =~= seq![spec_digit_char(n as nat)]);
        }
        r
    } else {
        let mut r = u64_to_string(n / 10);
        push_char(&mut r, digit_char(n % 10));
        r
    }
}

/// ASCII lower-casing of one character; other characters are unchanged.
pub open spec fn spec_lower_char(c: char) -> char {
    if 65 <= c as u32 && c as u32 <= 90 {
        ((c as u32 + 32) as char)
    } else {
        c
    }
}

/// A sequence with every ASCII upper-case letter lower-cased.
pub open spec fn spec_lower(s: Seq<char>) -> Seq<char> {
    s.map_values(|c: char| spec_lower_char(c))
}

/// Executable ASCII lower-casing of one character.
pub fn lower_char(c: char) -> (r: char)
    ensures
        r == spec_lower_char(c),
{
    match c {
        'A' => 'a',
        'B' => 'b',
        'C' => 'c',
        'D' => 'd',
        'E' => 'e',
        'F' => 'f',
        'G' => 'g',
        'H' => 'h',
        'I' => 'i',
        'J' => 'j',
        'K' => 'k',
        'L' => 'l',
        'M' => 'm',
        'N' => 'n',
        'O' => 'o',
        'P' => 'p',
        'Q' => 'q',
        'R' => 'r',
        'S' => 's',
        'T' => 't',
        'U' => 'u',
        'V' => 'v',
        'W' => 'w',
        'X' => 'x',
        'Y' => 'y',
        'Z' => 'z',
        _ => c,
    }
}

/// Lower-cases the ASCII letters of a string.
pub fn lower_string(s: &str) -> (r: String)
    ensures
        r@ == spec_lower(s@),
{
    let cs = chars_vec(s);
    let mut r = String::new();
    let mut i: usize = 0;
    while i < cs.len()
        invariant
            i <= cs.len(),
            cs@ == s@,
            r@ == spec_lower(s@.subrange(0, i as int)),
        decreases cs.len() - i,
    {
        push_char(&mut r, lower_char(cs[i]));
        i = i + 1;
        proof {
            assert(r@ =~= spec_lower(s@.subrange(0, i as int)));
        }
    }
    proof {
        assert(s@.subrange(0, s@.len() as int) =~= s@);
    }
    r
}

/// Whether two string slices hold the same characters.
pub fn str_eq(a: &str, b: &str) -> (r: bool)
    ensures
        r == (a@ == b@),
{
    let ca = chars_vec(a);
    let cb = chars_vec(b);
    if ca.len() != cb.len() {
        return false;
    }
    let mut i: usize = 0;
    while i < ca.len()
        invariant
            i <= ca.len(),
            ca.len() == cb.len(),
            ca@ == a@,
            cb@ == b@,
            forall|j: int| 0 <= j < i ==> a@[j] == b@[j],
        decreases ca.len() - i,
    {
        if ca[i] != cb[i] {
            return false;
        }
        i = i + 1;
    }
    proof {
        assert(a@ =~= b@);
    }
    true
}

/// Concatenation of two string slices.
pub fn concat2(a: &str, b: &str) -> (r: String)
    ensures
        r@ == a@ + b@,
{
    let mut r = String::from_str(a);
    r.append(b);
    r
}

/// Concatenation of three string slices.
pub fn concat3(a: &str, b: &str, c: &str) -> (r: String)
    ensures
        r@ == a@ + b@ + c@,
{
    let mut r = String::from_str(a);
    r.append(b);
    r.append(c);
    r
}

/// Concatenation of five string slices.
pub fn concat5(a: &str, b: &str, c: &str, d: &str, e: &str) -> (r: String)
    ensures
        r@ == a@ + b@ + c@ + d@ + e@,
{
    let mut r = String::from_str(a);
    r.append(b);
    r.append(c);
    r.append(d);
    r.append(e);
    r
}

} // verus!
