//! The structured values a process outcome may carry, and their rendering as
//! JSON bytes. The rendering is the canonicalization rule of the crate: field
//! and element order are kept exactly as given, strings are UTF-8 encoded with
//! `"`, `\` and control bytes escaped, and numbers are plain decimal.

use vstd::prelude::*;
use vstd::utf8::encode_utf8;
use crate::numfmt::{dec_digits, dec_digits_i64, push_dec_i64, push_dec_u64};

verus! {

/// A structured JSON value, as a process outcome carries it. There is no
/// floating-point variant: numbers are signed or unsigned integers.
pub enum JsonValue {
    Null,
    Bool(bool),
    Int(i64),
    UInt(u64),
    Str(String),
    Arr(Vec<JsonValue>),
    Obj(Vec<(String, JsonValue)>),
}

/// The ASCII byte of a single hexadecimal digit, lowercase.
pub open spec fn hex_digit(n: nat) -> u8 {
    if n < 10 {
        (0x30 + n) as u8
    } else {
        (0x57 + n) as u8
    }
}

/// How one byte of a string appears inside a JSON string literal: `"` and `\`
/// get a backslash, control bytes become `\u00XX`, all else stands as it is.
pub open spec fn escape_byte(b: u8) -> Seq<u8> {
    if b == 0x22 {
        seq![0x5cu8, 0x22u8]
    } else if b == 0x5c {
        seq![0x5cu8, 0x5cu8]
    } else if b < 0x20 {
        seq![0x5cu8, 0x75u8, 0x30u8, 0x30u8, hex_digit((b / 16) as nat), hex_digit((b % 16) as nat)]
    } else {
        seq![b]
    }
}

/// Each byte of `s`, escaped.
pub open spec fn escape_bytes(s: Seq<u8>) -> Seq<u8>
    decreases s.len(),
{
    if s.len() == 0 {
        Seq::empty()
    } else {
        escape_bytes(s.drop_last()) + escape_byte(s.last())
    }
}

/// A JSON string literal: the UTF-8 bytes of `s`, escaped, between quotes.
pub open spec fn json_string(s: Seq<char>) -> Seq<u8> {
    seq![0x22u8] + escape_bytes(encode_utf8(s)) + seq![0x22u8]
}

/// The JSON bytes of a boolean: the keyword `true` or `false`.
pub open spec fn bool_bytes(b: bool) -> Seq<u8> {
    if b {
        seq![0x74u8, 0x72u8, 0x75u8, 0x65u8]
    } else {
        seq![0x66u8, 0x61u8, 0x6cu8, 0x73u8, 0x65u8]
    }
}

/// The JSON bytes of a value.
pub open spec fn json_of(v: JsonValue) -> Seq<u8>
    decreases v,
{
    match v {
        JsonValue::Null => seq![0x6eu8, 0x75u8, 0x6cu8, 0x6cu8],
        JsonValue::Bool(b) => bool_bytes(b),
        JsonValue::Int(n) => dec_digits_i64(n),
        JsonValue::UInt(n) => dec_digits(n as nat),
        JsonValue::Str(s) => json_string(s@),
        JsonValue::Arr(items) => seq![0x5bu8] + json_items(items@) + seq![0x5du8],
        JsonValue::Obj(entries) => seq![0x7bu8] + json_entries(entries@) + seq![0x7du8],
    }
}

/// The comma-separated JSON bytes of a sequence of array elements.
pub open spec fn json_items(s: Seq<JsonValue>) -> Seq<u8>
    decreases s,
{
    if s.len() == 0 {
        Seq::empty()
    } else if s.len() == 1 {
        json_of(s.last())
    } else {
        json_items(s.drop_last()) + seq![0x2cu8] + json_of(s.last())
    }
}

/// The comma-separated JSON bytes of a sequence of object members, each a
/// quoted key, a colon, and a value.
pub open spec fn json_member(e: (String, JsonValue)) -> Seq<u8>
    decreases e,
{
    json_string(e.0@) + seq![0x3au8] + json_of(e.1)
}

/// See [`json_member`].
pub open spec fn json_entries(s: Seq<(String, JsonValue)>) -> Seq<u8>
    decreases s,
{
    if s.len() == 0 {
        Seq::empty()
    } else if s.len() == 1 {
        json_member(s.last())
    } else {
        json_entries(s.drop_last()) + seq![0x2cu8] + json_member(s.last())
    }
}

/// Appends the JSON keyword for `b` to `out`.
pub fn write_bool(b: bool, out: &mut Vec<u8>)
    ensures
        final(out)@ == old(out)@ + bool_bytes(b),
{
    if b {
        out.push(0x74);
        out.push(0x72);
        out.push(0x75);
        out.push(0x65);
    } else {
        out.push(0x66);
        out.push(0x61);
        out.push(0x6c);
        out.push(0x73);
        out.push(0x65);
    }
}

/// Appends the escaped form of every byte of `bytes` to `out`.
pub fn write_escaped(bytes: &[u8], out: &mut Vec<u8>)
    ensures
        final(out)@ == old(out)@ + escape_bytes(bytes@),
{
    let ghost start = out@;
    let mut i: usize = 0;
    while i < bytes.len()
        invariant
            0 <= i <= bytes@.len(),
            out@ == start + escape_bytes(bytes@.take(i as int)),
        decreases bytes@.len() - i,
    {
        let b = bytes[i];
        if b == 0x22 {
            out.push(0x5c);
            out.push(0x22);
        } else if b == 0x5c {
            out.push(0x5c);
            out.push(0x5c);
        } else if b < 0x20 {
            out.push(0x5c);
            out.push(0x75);
            out.push(0x30);
            out.push(0x30);
            let hi = b / 16;
            let lo = b % 16;
            out.push(if hi < 10 { 0x30 + hi } else { 0x57 + hi });
            out.push(if lo < 10 { 0x30 + lo } else { 0x57 + lo });
        } else {
            out.push(b);
        }
        proof {
            assert(bytes@.take(i + 1).drop_last() =~= bytes@.take(i as int));
            assert(bytes@.take(i + 1).last() == bytes@[i as int]);
        }
        i = i + 1;
    }
    proof {
        assert(bytes@.take(bytes@.len() as int) =~= bytes@);
    }
}

/// Appends the JSON string literal for `s` to `out`.
pub fn write_json_str(s: &str, out: &mut Vec<u8>)
    ensures
        final(out)@ == old(out)@ + json_string(s@),
{
    out.push(0x22);
    write_escaped(s.as_bytes(), out);
    out.push(0x22);
}

/// Appends the JSON bytes of `v` to `out`.
pub fn write_json(v: &JsonValue, out: &mut Vec<u8>)
    ensures
        final(out)@ == old(out)@ + json_of(*v),
    decreases *v,
{
    match v {
        JsonValue::Null => {
            out.push(0x6e);
            out.push(0x75);
            out.push(0x6c);
            out.push(0x6c);
        },
        JsonValue::Bool(b) => {
            write_bool(*b, out);
        },
        JsonValue::Int(n) => {
            push_dec_i64(*n, out);
        },
        JsonValue::UInt(n) => {
            push_dec_u64(*n, out);
        },
        JsonValue::Str(s) => {
            write_json_str(s.as_str(), out);
        },
        JsonValue::Arr(items) => {
            let ghost start = out@;
            out.push(0x5b);
            let mut i: usize = 0;
            while i < items.len()
                invariant
                    0 <= i <= items@.len(),
                    *v == JsonValue::Arr(*items),
                    out@ == start + seq![0x5bu8] + json_items(items@.take(i as int)),
                decreases items@.len() - i,
            {
                if i > 0 {
                    out.push(0x2c);
                }
                proof {
                    assert(decreases_to!(*v => v->Arr_0));
                    assert(decreases_to!(v->Arr_0 => v->Arr_0@));
                    assert(decreases_to!(v->Arr_0@ => v->Arr_0@[i as int]));
                }
                write_json(&items[i], out);
                proof {
                    assert(items@.take(i + 1).drop_last() =~= items@.take(i as int));
                    assert(items@.take(i + 1).last() == items@[i as int]);
                    assert(out@ =~= start + seq![0x5bu8] + json_items(items@.take(i + 1)));
                }
                i = i + 1;
            }
            out.push(0x5d);
            proof {
                assert(items@.take(items@.len() as int) =~= items@);
            }
        },
        JsonValue::Obj(entries) => {
            let ghost start = out@;
            out.push(0x7b);
            let mut i: usize = 0;
            while i < entries.len()
                invariant
                    0 <= i <= entries@.len(),
                    *v == JsonValue::Obj(*entries),
                    out@ == start + seq![0x7bu8] + json_entries(entries@.take(i as int)),
                decreases entries@.len() - i,
            {
                if i > 0 {
                    out.push(0x2c);
                }
                let entry = &entries[i];
                write_json_str(entry.0.as_str(), out);
                out.push(0x3a);
                proof {
                    assert(decreases_to!(*v => v->Obj_0));
                    assert(decreases_to!(v->Obj_0 => v->Obj_0@));
                    assert(decreases_to!(v->Obj_0@ => v->Obj_0@[i as int]));
                    assert(decreases_to!(v->Obj_0@[i as int] => v->Obj_0@[i as int].1));
                }
                write_json(&entry.1, out);
                proof {
                    assert(entries@.take(i + 1).drop_last() =~= entries@.take(i as int));
                    assert(entries@.take(i + 1).last() == entries@[i as int]);
                    assert(*entry == entries@[i as int]);
                    assert(json_member(entries@[i as int]) == json_string(entries@[i as int].0@)
                        + seq![0x3au8] + json_of(entries@[i as int].1));
                    assert(out@ =~= start + seq![0x7bu8] + json_entries(entries@.take(i + 1)));
                }
                i = i + 1;
            }
            out.push(0x7d);
            proof {
                assert(entries@.take(entries@.len() as int) =~= entries@);
            }
        },
    }
}

/// The JSON bytes of `v`, as a fresh vector.
pub fn json_bytes(v: &JsonValue) -> (r: Vec<u8>)
    ensures
        r@ == json_of(*v),
{
    let mut out: Vec<u8> = Vec::new();
    write_json(v, &mut out);
    out
}

} // verus!
