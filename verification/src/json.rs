//! A small JSON document model and a verified compact renderer.
//!
//! Request bodies, the dry-run envelope and the JSON output envelope are all
//! built as [`JsonValue`] trees and rendered by [`json_to_string`], whose
//! output is pinned down character by character by [`spec_json_chars`].
//! Numbers are unsigned integers or fixed-point decimals ([`Temp`]): that is
//! all the request layer ever emits.

use vstd::prelude::*;
use crate::temp::{Temp, spec_temp_chars, temp_to_string};
use crate::text::{spec_dec_digits, spec_digit_char, push_char, u64_to_string, chars_vec};

verus! {

/// The mathematical shape of a JSON document.
#[verifier::ext_equal]
pub enum JsonV {
    Null,
    Bool(bool),
    UInt(u64),
    Dec(Temp),
    Str(Seq<char>),
    Arr(Seq<JsonV>),
    Obj(Seq<(Seq<char>, JsonV)>),
}

/// An executable JSON document.
#[derive(Debug)]
pub enum JsonValue {
    Null,
    Bool(bool),
    UInt(u64),
    Dec(Temp),
    Str(String),
    Arr(Vec<JsonValue>),
    Obj(Vec<(String, JsonValue)>),
}

/// The views of a sequence of documents.
pub open spec fn spec_view_list(s: Seq<JsonValue>) -> Seq<JsonV>
    decreases s,
{
    if s.len() == 0 {
        Seq::empty()
    } else {
        spec_view_list(s.drop_last()).push(s.last()@)
    }
}

/// The views of a sequence of keyed documents.
pub open spec fn spec_view_fields(s: Seq<(String, JsonValue)>) -> Seq<(Seq<char>, JsonV)>
    decreases s,
{
    if s.len() == 0 {
        Seq::empty()
    } else {
        spec_view_fields(s.drop_last()).push((s.last().0@, s.last().1@))
    }
}

impl View for JsonValue {
    type V = JsonV;

    open spec fn view(&self) -> JsonV
        decreases self,
    {
        match self {
            JsonValue::Null => JsonV::Null,
            JsonValue::Bool(b) => JsonV::Bool(*b),
            JsonValue::UInt(n) => JsonV::UInt(*n),
            JsonValue::Dec(t) => JsonV::Dec(*t),
            JsonValue::Str(s) => JsonV::Str(s@),
            JsonValue::Arr(items) => JsonV::Arr(spec_view_list(items@)),
            JsonValue::Obj(fields) => JsonV::Obj(spec_view_fields(fields@)),
        }
    }
}

pub proof fn lemma_view_list_index(s: Seq<JsonValue>, i: int)
    requires
        0 <= i < s.len(),
    ensures
        spec_view_list(s)[i] == s[i]@,
        spec_view_list(s).len() == s.len(),
    decreases s,
{
    lemma_view_list_len(s);
    assert(spec_view_list(s) == spec_view_list(s.drop_last()).push(s.last()@));
    if i < s.len() - 1 {
        lemma_view_list_index(s.drop_last(), i);
        assert(s.drop_last()[i] == s[i]);
    } else {
        assert(s[i] == s.last());
    }
}

pub proof fn lemma_view_list_len(s: Seq<JsonValue>)
    ensures
        spec_view_list(s).len() == s.len(),
    decreases s,
{
    if s.len() > 0 {
        lemma_view_list_len(s.drop_last());
        assert(spec_view_list(s) == spec_view_list(s.drop_last()).push(s.last()@));
        assert(spec_view_list(s).len() == spec_view_list(s.drop_last()).len() + 1);
    } else {
        assert(spec_view_list(s).len() == 0);
    }
}

pub proof fn lemma_view_fields_index(s: Seq<(String, JsonValue)>, i: int)
    requires
        0 <= i < s.len(),
    ensures
        spec_view_fields(s)[i] == (s[i].0@, s[i].1@),
        spec_view_fields(s).len() == s.len(),
    decreases s,
{
    lemma_view_fields_len(s);
    assert(spec_view_fields(s) == spec_view_fields(s.drop_last()).push((s.last().0@, s.last().1@)));
    if i < s.len() - 1 {
        lemma_view_fields_index(s.drop_last(), i);
        assert(s.drop_last()[i] == s[i]);
    } else {
        assert(s[i] == s.last());
    }
}

pub proof fn lemma_view_fields_len(s: Seq<(String, JsonValue)>)
    ensures
        spec_view_fields(s).len() == s.len(),
    decreases s,
{
    if s.len() > 0 {
        lemma_view_fields_len(s.drop_last());
        assert(spec_view_fields(s) == spec_view_fields(s.drop_last()).push(
            (s.last().0@, s.last().1@),
        ));
    } else {
        assert(spec_view_fields(s).len() == 0);
    }
}

/// Two document lists with pairwise equal views have equal view lists.
pub proof fn lemma_view_list_eq(a: Seq<JsonValue>, b: Seq<JsonValue>)
    requires
        a.len() == b.len(),
        forall|i: int| 0 <= i < a.len() ==> (#[trigger] a[i])@ == b[i]@,
    ensures
        spec_view_list(a) == spec_view_list(b),
    decreases a,
{
    if a.len() > 0 {
        lemma_view_list_eq(a.drop_last(), b.drop_last());
        assert(a.last() == a[a.len() - 1]);
        assert(spec_view_list(a) == spec_view_list(a.drop_last()).push(a.last()@));
        assert(spec_view_list(b) == spec_view_list(b.drop_last()).push(b.last()@));
    } else {
        assert(spec_view_list(a) =~= spec_view_list(b));
    }
}

impl Clone for JsonValue {
    /// A deep copy with the same view.
    #[verifier::loop_isolation(false)]
    fn clone(&self) -> (res: Self)
        ensures
            res@ == self@,
        decreases self,
    {
        match self {
            JsonValue::Null => JsonValue::Null,
            JsonValue::Bool(b) => JsonValue::Bool(*b),
            JsonValue::UInt(n) => JsonValue::UInt(*n),
            JsonValue::Dec(t) => JsonValue::Dec(*t),
            JsonValue::Str(s) => JsonValue::Str(s.clone()),
            JsonValue::Arr(items) => {
                let mut copy: Vec<JsonValue> = Vec::new();
                let mut i: usize = 0;
                while i < items.len()
                    invariant
                        i <= items.len(),
                        spec_view_list(copy@) =~= spec_view_list(items@.subrange(0, i as int)),
                        copy@.len() == i,
                    decreases items.len() - i,
                {
                    let item = items[i].clone();
                    let ghost prev = copy@;
                    copy.push(item);
                    i = i + 1;
                    proof {
                        lemma_view_list_index(items@.subrange(0, i as int), i - 1);
                        assert(copy@.drop_last() =~= prev);
                        assert(items@.subrange(0, i as int).drop_last() =~= items@.subrange(
                            0,
                            i - 1,
                        ));
                        assert(spec_view_list(copy@) =~= spec_view_list(
                            items@.subrange(0, i as int),
                        ));
                    }
                }
                proof {
                    assert(items@.subrange(0, items@.len() as int) =~= items@);
                }
                JsonValue::Arr(copy)
            },
            JsonValue::Obj(fields) => {
                let mut copy: Vec<(String, JsonValue)> = Vec::new();
                let mut i: usize = 0;
                while i < fields.len()
                    invariant
                        i <= fields.len(),
                        spec_view_fields(copy@) =~= spec_view_fields(
                            fields@.subrange(0, i as int),
                        ),
                        copy@.len() == i,
                    decreases fields.len() - i,
                {
                    let key = fields[i].0.clone();
                    let value = fields[i].1.clone();
                    let ghost prev = copy@;
                    copy.push((key, value));
                    i = i + 1;
                    proof {
                        lemma_view_fields_index(fields@.subrange(0, i as int), i - 1);
                        assert(copy@.drop_last() =~= prev);
                        assert(fields@.subrange(0, i as int).drop_last() =~= fields@.subrange(
                            0,
                            i - 1,
                        ));
                        assert(spec_view_fields(copy@) =~= spec_view_fields(
                            fields@.subrange(0, i as int),
                        ));
                    }
                }
                proof {
                    assert(fields@.subrange(0, fields@.len() as int) =~= fields@);
                }
                JsonValue::Obj(copy)
            },
        }
    }
}

/// The hexadecimal digit character for a value below sixteen.
pub open spec fn spec_hex_char(d: nat) -> char {
    if d < 10 {
        spec_digit_char(d)
    } else if d == 10 {
        'a'
    } else if d == 11 {
        'b'
    } else if d == 12 {
        'c'
    } else if d == 13 {
        'd'
    } else if d == 14 {
        'e'
    } else {
        'f'
    }
}

/// Executable hexadecimal digit character.
pub fn hex_char(d: u32) -> (c: char)
    requires
        d < 16,
    ensures
        c == spec_hex_char(d as nat),
{
    if d < 10 {
        crate::text::digit_char(d as u64)
    } else if d == 10 {
        'a'
    } else if d == 11 {
        'b'
    } else if d == 12 {
        'c'
    } else if d == 13 {
        'd'
    } else if d == 14 {
        'e'
    } else {
        'f'
    }
}

/// How one character is written inside a JSON string literal: quotes and
/// backslashes get a backslash escape, the named control characters their
/// short escapes, other control characters a `\u00..` escape.
pub open spec fn spec_esc_char(c: char) -> Seq<char> {
    if c == '"' {
        seq!['\\', '"']
    } else if c == '\\' {
        seq!['\\', '\\']
    } else if c == '\n' {
        seq!['\\', 'n']
    } else if c == '\r' {
        seq!['\\', 'r']
    } else if c == '\t' {
        seq!['\\', 't']
    } else if c == '\u{8}' {
        seq!['\\', 'b']
    } else if c == '\u{c}' {
        seq!['\\', 'f']
    } else if (c as u32) < 32 {
        seq!['\\', 'u', '0', '0', spec_hex_char((c as u32 / 16) as nat), spec_hex_char(
            (c as u32 % 16) as nat,
        )]
    } else {
        seq![c]
    }
}

/// The escaped body of a JSON string literal.
pub open spec fn spec_escape(s: Seq<char>) -> Seq<char>
    decreases s.len(),
{
    if s.len() == 0 {
        Seq::empty()
    } else {
        spec_escape(s.drop_last()) + spec_esc_char(s.last())
    }
}

/// The compact rendering of a JSON document: no added whitespace, object
/// fields in construction order.
pub open spec fn spec_json_chars(v: JsonV) -> Seq<char>
    decreases v,
{
    match v {
        JsonV::Null => seq!['n', 'u', 'l', 'l'],
        JsonV::Bool(b) => if b {
            seq!['t', 'r', 'u', 'e']
        } else {
            seq!['f', 'a', 'l', 's', 'e']
        },
        JsonV::UInt(n) => spec_dec_digits(n as nat),
        JsonV::Dec(t) => spec_temp_chars(t),
        JsonV::Str(s) => seq!['"'] + spec_escape(s) + seq!['"'],
        JsonV::Arr(items) => seq!['['] + spec_arr_chars(items) + seq![']'],
        JsonV::Obj(fields) => seq!['{'] + spec_obj_chars(fields) + seq!['}'],
    }
}

/// The comma-separated renderings of array elements.
pub open spec fn spec_arr_chars(items: Seq<JsonV>) -> Seq<char>
    decreases items,
{
    if items.len() == 0 {
        Seq::empty()
    } else if items.len() == 1 {
        spec_json_chars(items[0])
    } else {
        spec_arr_chars(items.drop_last()) + seq![','] + spec_json_chars(items.last())
    }
}

/// The comma-separated renderings of object fields.
pub open spec fn spec_obj_chars(fields: Seq<(Seq<char>, JsonV)>) -> Seq<char>
    decreases fields,
{
    if fields.len() == 0 {
        Seq::empty()
    } else if fields.len() == 1 {
        spec_field_chars(fields[0])
    } else {
        spec_obj_chars(fields.drop_last()) + seq![','] + spec_field_chars(fields.last())
    }
}

/// The rendering of one object field: quoted key, colon, value.
pub open spec fn spec_field_chars(field: (Seq<char>, JsonV)) -> Seq<char>
    decreases field,
{
    seq!['"'] + spec_escape(field.0) + seq!['"', ':'] + spec_json_chars(field.1)
}

/// Appends the escaped body of a JSON string literal.
pub fn write_escaped(s: &str, out: &mut String)
    ensures
        final(out)@ == old(out)@ + spec_escape(s@),
{
    let ghost base = out@;
    let cs = chars_vec(s);
    let mut i: usize = 0;
    while i < cs.len()
        invariant
            i <= cs.len(),
            cs@ == s@,
            out@ == base + spec_escape(s@.subrange(0, i as int)),
        decreases cs.len() - i,
    {
        let c = cs[i];
        let cv = c as u32;
        if c == '"' {
            push_char(out, '\\');
            push_char(out, '"');
        } else if c == '\\' {
            push_char(out, '\\');
            push_char(out, '\\');
        } else if c == '\n' {
            push_char(out, '\\');
            push_char(out, 'n');
        } else if c == '\r' {
            push_char(out, '\\');
            push_char(out, 'r');
        } else if c == '\t' {
            push_char(out, '\\');
            push_char(out, 't');
        } else if c == '\u{8}' {
            push_char(out, '\\');
            push_char(out, 'b');
        } else if c == '\u{c}' {
            push_char(out, '\\');
            push_char(out, 'f');
        } else if cv < 32 {
            push_char(out, '\\');
            push_char(out, 'u');
            push_char(out, '0');
            push_char(out, '0');
            push_char(out, hex_char(cv / 16));
            push_char(out, hex_char(cv % 16));
        } else {
            push_char(out, c);
        }
        i = i + 1;
        proof {
            assert(s@.subrange(0, i as int).drop_last() =~= s@.subrange(0, i - 1));
            assert(out@ =~= base + spec_escape(s@.subrange(0, i as int)));
        }
    }
    proof {
        assert(s@.subrange(0, s@.len() as int) =~= s@);
    }
}

/// Appends the compact rendering of a JSON document.
#[verifier::loop_isolation(false)]
#[verifier::rlimit(100)]
pub fn write_json(v: &JsonValue, out: &mut String)
    ensures
        final(out)@ == old(out)@ + spec_json_chars(v@),
    decreases v,
{
    let ghost base = out@;
    match v {
        JsonValue::Null => {
            out.append("null");
            proof {
                reveal_strlit("null");
                assert(out@ =~= base + spec_json_chars(v@));
            }
        },
        JsonValue::Bool(b) => {
            if *b {
                out.append("true");
                proof {
                    reveal_strlit("true");
                    assert(out@ =~= base + spec_json_chars(v@));
                }
            } else {
                out.append("false");
                proof {
                    reveal_strlit("false");
                    assert(out@ =~= base + spec_json_chars(v@));
                }
            }
        },
        JsonValue::UInt(n) => {
            let digits = u64_to_string(*n);
            out.append(digits.as_str());
        },
        JsonValue::Dec(t) => {
            let digits = temp_to_string(t);
            out.append(digits.as_str());
        },
        JsonValue::Str(s) => {
            push_char(out, '"');
            write_escaped(s.as_str(), out);
            push_char(out, '"');
            proof {
                assert(out@ =~= base + spec_json_chars(v@));
            }
        },
        JsonValue::Arr(items) => {
            push_char(out, '[');
            let mut i: usize = 0;
            while i < items.len()
                invariant
                    i <= items.len(),
                    out@ == base + seq!['['] + spec_arr_chars(
                        spec_view_list(items@).subrange(0, i as int),
                    ),
                decreases items.len() - i,
            {
                proof {
                    lemma_view_list_len(items@);
                }
                if i > 0 {
                    push_char(out, ',');
                }
                write_json(&items[i], out);
                i = i + 1;
                proof {
                    lemma_view_list_index(items@, i - 1);
                    let vl = spec_view_list(items@);
                    if i == 1 {
                        assert(vl.subrange(0, 1)[0] == vl[0]);
                        assert(spec_arr_chars(vl.subrange(0, 1)) == spec_json_chars(vl[0]));
                    } else {
                        assert(vl.subrange(0, i as int).drop_last() =~= vl.subrange(0, i - 1));
                        assert(vl.subrange(0, i as int).last() == vl[i - 1]);
                    }
                    assert(out@ =~= base + seq!['['] + spec_arr_chars(
                        vl.subrange(0, i as int),
                    ));
                }
            }
            proof {
                lemma_view_list_len(items@);
                assert(spec_view_list(items@).subrange(
                    0,
                    spec_view_list(items@).len() as int,
                ) =~= spec_view_list(items@));
            }
            push_char(out, ']');
            proof {
                assert(out@ =~= base + spec_json_chars(v@));
            }
        },
        JsonValue::Obj(fields) => {
            push_char(out, '{');
            let mut i: usize = 0;
            while i < fields.len()
                invariant
                    i <= fields.len(),
                    out@ == base + seq!['{'] + spec_obj_chars(
                        spec_view_fields(fields@).subrange(0, i as int),
                    ),
                decreases fields.len() - i,
            {
                proof {
                    lemma_view_fields_len(fields@);
                }
                if i > 0 {
                    push_char(out, ',');
                }
                push_char(out, '"');
                write_escaped(fields[i].0.as_str(), out);
                push_char(out, '"');
                push_char(out, ':');
                write_json(&fields[i].1, out);
                i = i + 1;
                proof {
                    lemma_view_fields_index(fields@, i - 1);
                    let vf = spec_view_fields(fields@);
                    assert(spec_field_chars(vf[i - 1]) =~= seq!['"'] + spec_escape(
                        fields@[i - 1].0@,
                    ) + seq!['"'].push(':') + spec_json_chars(fields@[i - 1].1@));
                    if i == 1 {
                        assert(vf.subrange(0, 1)[0] == vf[0]);
                        assert(spec_obj_chars(vf.subrange(0, 1)) == spec_field_chars(vf[0]));
                    } else {
                        assert(vf.subrange(0, i as int).drop_last() =~= vf.subrange(0, i - 1));
                        assert(vf.subrange(0, i as int).last() == vf[i - 1]);
                    }
                    assert(out@ =~= base + seq!['{'] + spec_obj_chars(
                        vf.subrange(0, i as int),
                    ));
                }
            }
            proof {
                lemma_view_fields_len(fields@);
                assert(spec_view_fields(fields@).subrange(
                    0,
                    spec_view_fields(fields@).len() as int,
                ) =~= spec_view_fields(fields@));
            }
            push_char(out, '}');
            proof {
                assert(out@ =~= base + spec_json_chars(v@));
            }
        },
    }
}

/// The value under the first matching key of a field list.
pub open spec fn spec_lookup(fields: Seq<(Seq<char>, JsonV)>, key: Seq<char>) -> Option<JsonV>
    decreases fields,
{
    if fields.len() == 0 {
        None
    } else if fields[0].0 == key {
        Some(fields[0].1)
    } else {
        spec_lookup(fields.drop_first(), key)
    }
}

/// The value under a key of a JSON object; `None` for other documents or a
/// missing key.
pub open spec fn spec_obj_get(v: JsonV, key: Seq<char>) -> Option<JsonV> {
    match v {
        JsonV::Obj(fields) => spec_lookup(fields, key),
        _ => None,
    }
}

/// The element of a JSON array at an index; `None` for other documents or
/// out of range.
pub open spec fn spec_arr_item(v: JsonV, i: int) -> Option<JsonV> {
    match v {
        JsonV::Arr(items) => if 0 <= i < items.len() {
            Some(items[i])
        } else {
            None
        },
        _ => None,
    }
}

/// Looks a key up in a JSON object, first match wins.
#[verifier::loop_isolation(false)]
pub fn obj_get<'a>(v: &'a JsonValue, key: &str) -> (r: Option<&'a JsonValue>)
    ensures
        match r {
            Some(x) => spec_obj_get(v@, key@) == Some(x@),
            None => spec_obj_get(v@, key@) is None,
        },
{
    match v {
        JsonValue::Obj(fields) => {
            proof {
                lemma_view_fields_len(fields@);
            }
            let ghost vf = spec_view_fields(fields@);
            proof {
                assert(vf.skip(0) =~= vf);
            }
            let mut i: usize = 0;
            while i < fields.len()
                invariant
                    i <= fields.len(),
                    spec_lookup(vf, key@) == spec_lookup(vf.skip(i as int), key@),
                decreases fields.len() - i,
            {
                proof {
                    lemma_view_fields_index(fields@, i as int);
                    assert(vf.skip(i as int)[0] == vf[i as int]);
                }
                if crate::text::str_eq(fields[i].0.as_str(), key) {
                    return Some(&fields[i].1);
                }
                proof {
                    assert(vf.skip(i as int).drop_first() =~= vf.skip(i + 1));
                }
                i = i + 1;
            }
            proof {
                assert(vf.skip(fields.len() as int).len() == 0);
            }
            None
        },
        _ => None,
    }
}

/// Reads the element of a JSON array at an index.
pub fn arr_get<'a>(v: &'a JsonValue, i: usize) -> (r: Option<&'a JsonValue>)
    ensures
        match r {
            Some(x) => spec_arr_item(v@, i as int) == Some(x@),
            None => spec_arr_item(v@, i as int) is None,
        },
{
    match v {
        JsonValue::Arr(items) => {
            proof {
                lemma_view_list_len(items@);
            }
            if i < items.len() {
                proof {
                    lemma_view_list_index(items@, i as int);
                }
                Some(&items[i])
            } else {
                None
            }
        },
        _ => None,
    }
}

/// Renders a JSON document compactly, as `{"key":"value",...}`.
pub fn json_to_string(v: &JsonValue) -> (r: String)
    ensures
        r@ == spec_json_chars(v@),
{
    let mut out = String::new();
    write_json(v, &mut out);
    out
}

} // verus!
