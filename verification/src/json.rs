//! A model of parsed JSON documents.
//!
//! The remote service answers with JSON bodies: error envelopes, voice
//! records, job metadata.  This module holds the library's own
//! representation of a parsed document, the lookup functions the
//! decoders are built on, and the verified serialization helpers used
//! to frame request bodies.  Parsing raw bytes is delegated to
//! `serde_json` behind a trusted wrapper.

use vstd::prelude::*;

verus! {

/// A parsed JSON document, as far as this library reads one.
///
/// No decoder of this library reads a numeric payload, so `Number`
/// records only that a number stood in the document.  Object fields
/// are kept as an ordered list of name/value pairs; the parser hands
/// them over with pairwise-distinct names.
#[derive(Debug, PartialEq)]
pub enum JsonValue {
    Null,
    Bool(bool),
    Number,
    Text(String),
    Array(Vec<JsonValue>),
    Object(Vec<(String, JsonValue)>),
}

/// The value of the first field named `key`, if any.
pub open spec fn spec_lookup(fields: Seq<(String, JsonValue)>, key: Seq<char>) -> Option<
    JsonValue,
>
    decreases fields.len(),
{
    if fields.len() == 0 {
        None
    } else if fields[0].0@ == key {
        Some(fields[0].1)
    } else {
        spec_lookup(fields.drop_first(), key)
    }
}

/// The text of the field named `key`, when that field exists and holds
/// a JSON string.
pub open spec fn spec_str_field(fields: Seq<(String, JsonValue)>, key: Seq<char>) -> Option<
    Seq<char>,
> {
    match spec_lookup(fields, key) {
        Some(JsonValue::Text(s)) => Some(s@),
        _ => None,
    }
}

/// Finds the first field named `key` and returns a reference to its value.
pub fn lookup_field<'a>(fields: &'a Vec<(String, JsonValue)>, key: &String) -> (r: Option<
    &'a JsonValue,
>)
    ensures
        match r {
            Some(v) => spec_lookup(fields@, key@) == Some(*v),
            None => spec_lookup(fields@, key@) is None,
        },
{
    let mut i: usize = 0;
    proof {
        assert(fields@.skip(0) =~= fields@);
    }
    while i < fields.len()
        invariant
            0 <= i <= fields@.len(),
            spec_lookup(fields@, key@) == spec_lookup(fields@.skip(i as int), key@),
        decreases fields@.len() - i,
    {
        let pair = &fields[i];
        if pair.0.eq(key) {
            proof {
                assert(fields@.skip(i as int)[0] == fields@[i as int]);
            }
            return Some(&fields[i].1);
        }
        proof {
            assert(fields@.skip(i as int).drop_first() =~= fields@.skip(i as int + 1));
            assert(fields@.skip(i as int)[0] == fields@[i as int]);
        }
        i = i + 1;
    }
    proof {
        assert(fields@.skip(i as int).len() == 0);
    }
    None
}

/// Finds the field named `key` and returns its text, when it holds a
/// JSON string.
pub fn lookup_str_field<'a>(fields: &'a Vec<(String, JsonValue)>, key: &String) -> (r: Option<
    &'a String,
>)
    ensures
        match r {
            Some(s) => spec_str_field(fields@, key@) == Some(s@),
            None => spec_str_field(fields@, key@) is None,
        },
{
    match lookup_field(fields, key) {
        Some(v) => match v {
            JsonValue::Text(s) => Some(s),
            _ => None,
        },
        None => None,
    }
}

/// The text of an optional field: a missing field and a JSON `null`
/// both stand for no text, while a field holding anything but a string
/// fails the record's shape (the outer `None`).
pub open spec fn spec_opt_str_field(fields: Seq<(String, JsonValue)>, key: Seq<char>) -> Option<
    Option<Seq<char>>,
> {
    match spec_lookup(fields, key) {
        None => Some(None),
        Some(JsonValue::Null) => Some(None),
        Some(JsonValue::Text(s)) => Some(Some(s@)),
        Some(_) => None,
    }
}

/// Finds an optional text field: absent or `null` is no text, a string
/// is its text, and any other value fails the shape.
pub fn lookup_opt_str_field<'a>(fields: &'a Vec<(String, JsonValue)>, key: &String) -> (r: Option<
    Option<&'a String>,
>)
    ensures
        match r {
            Some(Some(s)) => spec_opt_str_field(fields@, key@) == Some(Some(s@)),
            Some(None) => spec_opt_str_field(fields@, key@) == Some(None::<Seq<char>>),
            None => spec_opt_str_field(fields@, key@) is None,
        },
{
    match lookup_field(fields, key) {
        None => Some(None),
        Some(v) => match v {
            JsonValue::Null => Some(None),
            JsonValue::Text(s) => Some(Some(s)),
            _ => None,
        },
    }
}

/// What `serde_json` makes of a byte sequence: the parsed document, or
/// nothing when the bytes are not one valid JSON document.  The result
/// depends on the bytes alone.
pub uninterp spec fn json_parse(bytes: Seq<u8>) -> Option<JsonValue>;

#[verifier::external_type_specification]
#[verifier::external_body]
pub struct ExJsonDocument(serde_json::Value);

/// Rebuilds a `serde_json` document as the library's own representation,
/// variant for variant.  Numeric payloads are not kept: no decoder of
/// this library reads them.
#[verifier::external_body]
fn json_value_of(v: serde_json::Value) -> JsonValue {
    match v {
        serde_json::Value::Null => JsonValue::Null,
        serde_json::Value::Bool(b) => JsonValue::Bool(b),
        serde_json::Value::Number(_) => JsonValue::Number,
        serde_json::Value::String(s) => JsonValue::Text(s),
        serde_json::Value::Array(items) => JsonValue::Array(
            items.into_iter().map(json_value_of).collect(),
        ),
        serde_json::Value::Object(fields) => JsonValue::Object(
            fields.into_iter().map(|(k, w)| (k, json_value_of(w))).collect(),
        ),
    }
}

/// Relies on `serde_json::from_slice`: parses one JSON document from raw
/// bytes, or fails when the bytes are not valid JSON.  The parse is a
/// pure function of the bytes, named `json_parse`.
#[verifier::external_body]
pub(crate) fn parse_json(bytes: &Vec<u8>) -> (r: Option<JsonValue>)
    ensures
        r == json_parse(bytes@),
{
    match serde_json::from_slice::<serde_json::Value>(bytes.as_slice()) {
        Ok(v) => Some(json_value_of(v)),
        Err(_) => None,
    }
}

/// The byte standing for one hexadecimal digit, lower case.
pub open spec fn spec_hex_digit(n: u8) -> u8 {
    if n < 10 {
        (48 + n) as u8
    } else {
        (87 + n) as u8
    }
}

/// How one byte of a string is written inside a JSON string literal:
/// quote and backslash get a backslash escape, control bytes get their
/// short escape or a `\u00XX` escape, everything else stands as it is.
pub open spec fn spec_escape_byte(b: u8) -> Seq<u8> {
    if b == 34 {
        seq![92u8, 34u8]
    } else if b == 92 {
        seq![92u8, 92u8]
    } else if b == 8 {
        seq![92u8, 98u8]
    } else if b == 9 {
        seq![92u8, 116u8]
    } else if b == 10 {
        seq![92u8, 110u8]
    } else if b == 12 {
        seq![92u8, 102u8]
    } else if b == 13 {
        seq![92u8, 114u8]
    } else if b < 32 {
        seq![92u8, 117u8, 48u8, 48u8, spec_hex_digit(b / 16), spec_hex_digit(b % 16)]
    } else {
        seq![b]
    }
}

/// The escaped form of a whole byte sequence.
pub open spec fn spec_escape(s: Seq<u8>) -> Seq<u8>
    decreases s.len(),
{
    if s.len() == 0 {
        Seq::empty()
    } else {
        spec_escape_byte(s[0]) + spec_escape(s.drop_first())
    }
}

/// Escaping distributes over appending one byte at the end.
pub proof fn lemma_escape_push(s: Seq<u8>, b: u8)
    ensures
        spec_escape(s.push(b)) == spec_escape(s) + spec_escape_byte(b),
    decreases s.len(),
{
    if s.len() == 0 {
        assert(s.push(b)[0] == b);
        assert(s.push(b).drop_first() =~= Seq::<u8>::empty());
        assert(spec_escape(Seq::<u8>::empty()) =~= Seq::<u8>::empty());
        assert(spec_escape(s.push(b)) =~= spec_escape_byte(b));
        assert(spec_escape(s) + spec_escape_byte(b) =~= spec_escape_byte(b));
    } else {
        assert(s.push(b)[0] == s[0]);
        assert(s.push(b).drop_first() =~= s.drop_first().push(b));
        lemma_escape_push(s.drop_first(), b);
        assert(spec_escape_byte(s[0]) + (spec_escape(s.drop_first()) + spec_escape_byte(b)) =~= (
        spec_escape_byte(s[0]) + spec_escape(s.drop_first())) + spec_escape_byte(b));
    }
}

/// A whole JSON string literal: the escaped UTF-8 encoding of the
/// characters, between double quotes.
pub open spec fn spec_json_string(s: Seq<char>) -> Seq<u8> {
    seq![34u8] + spec_escape(vstd::utf8::encode_utf8(s)) + seq![34u8]
}

/// The byte for one hexadecimal digit, lower case.
fn hex_digit(n: u8) -> (r: u8)
    requires
        n < 16,
    ensures
        r == spec_hex_digit(n),
{
    if n < 10 {
        48 + n
    } else {
        87 + n
    }
}

/// Appends a byte slice to a buffer.
pub fn append_bytes(out: &mut Vec<u8>, tail: &[u8])
    ensures
        final(out)@ == old(out)@ + tail@,
{
    let n = tail.len();
    let mut i: usize = 0;
    while i < n
        invariant
            n == tail@.len(),
            0 <= i <= n,
            out@ == old(out)@ + tail@.take(i as int),
        decreases n - i,
    {
        let b = *vstd::slice::slice_index_get(tail, i);
        out.push(b);
        proof {
            assert(tail@.take(i as int).push(tail@[i as int]) =~= tail@.take(i as int + 1));
            assert(old(out)@ + tail@.take(i as int + 1) =~= (old(out)@ + tail@.take(i as int)).push(
                tail@[i as int],
            ));
        }
        i = i + 1;
    }
    proof {
        assert(tail@.take(n as int) =~= tail@);
    }
}

/// Appends the JSON string literal for `s` to a buffer, escaped exactly
/// as the body framing requires.
pub fn append_json_string(out: &mut Vec<u8>, s: &String)
    ensures
        final(out)@ == old(out)@ + spec_json_string(s@),
{
    out.push(34);
    let bs = s.as_str().as_bytes_vec();
    let ghost enc = vstd::utf8::encode_utf8(s@);
    let mut i: usize = 0;
    while i < bs.len()
        invariant
            bs@ == enc,
            0 <= i <= bs@.len(),
            out@ == old(out)@ + seq![34u8] + spec_escape(enc.take(i as int)),
        decreases bs@.len() - i,
    {
        let b = bs[i];
        proof {
            assert(enc.take(i as int).push(enc[i as int]) =~= enc.take(i as int + 1));
            lemma_escape_push(enc.take(i as int), enc[i as int]);
        }
        if b == 34 {
            out.push(92);
            out.push(34);
        } else if b == 92 {
            out.push(92);
            out.push(92);
        } else if b == 8 {
            out.push(92);
            out.push(98);
        } else if b == 9 {
            out.push(92);
            out.push(116);
        } else if b == 10 {
            out.push(92);
            out.push(110);
        } else if b == 12 {
            out.push(92);
            out.push(102);
        } else if b == 13 {
            out.push(92);
            out.push(114);
        } else if b < 32 {
            out.push(92);
            out.push(117);
            out.push(48);
            out.push(48);
            out.push(hex_digit(b / 16));
            out.push(hex_digit(b % 16));
        } else {
            out.push(b);
        }
        proof {
            assert(out@ =~= old(out)@ + seq![34u8] + spec_escape(enc.take(i as int + 1)));
        }
        i = i + 1;
    }
    out.push(34);
    proof {
        assert(enc.take(bs@.len() as int) =~= enc);
        assert(out@ =~= old(out)@ + spec_json_string(s@));
    }
}

} // verus!
