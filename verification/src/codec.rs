//! The encodings that links are wrapped in: base64, UTF-8, percent escapes
//! and JSON.

use vstd::prelude::*;
use vstd::utf8::{decode_utf8, encode_utf8, valid_utf8};

verus! {

/// `serde_json::Value`, as a type that nothing is known of.
#[verifier::external_type_specification]
#[verifier::external_body]
pub struct ExJsonValue(serde_json::Value);

/// The bytes that the base64 engine `STANDARD` decodes a text to, where it
/// accepts the text.
pub uninterp spec fn base64_decoded(text: Seq<char>) -> Option<Seq<u8>>;

/// The text that the base64 engine `STANDARD` encodes bytes as.
pub uninterp spec fn base64_encoded(bytes: Seq<u8>) -> Seq<char>;

/// The members of the JSON object that `serde_json::from_str` reads from a
/// text, where it reads a value: see `members`.
pub uninterp spec fn json_members(text: Seq<char>) -> Option<Map<Seq<char>, Seq<char>>>;

/// What a JSON value holds for the decoders: the members of an object whose
/// values are strings, each name with its string. A value that is no object
/// holds none.
pub uninterp spec fn members(value: serde_json::Value) -> Map<Seq<char>, Seq<char>>;

/// `Engine::decode` of the engine `general_purpose::STANDARD`: the result
/// holds the bytes that `base64_decoded` names for the text, and is none
/// where the text is refused.
#[verifier::external_body]
fn base64_decode(text: &str) -> (r: Option<Vec<u8>>)
    ensures
        match r {
            Some(bytes) => base64_decoded(text@) == Some(bytes@),
            None => base64_decoded(text@) is None,
        },
{
    base64::Engine::decode(&base64::engine::general_purpose::STANDARD, text).ok()
}

/// `Engine::encode` of the engine `general_purpose::STANDARD`: the result is
/// the text that `base64_encoded` names for the bytes.
#[verifier::external_body]
fn base64_encode(bytes: &[u8]) -> (r: String)
    ensures
        r@ == base64_encoded(bytes@),
{
    base64::Engine::encode(&base64::engine::general_purpose::STANDARD, bytes)
}

/// `String::from_utf8`: the string that the bytes encode, and none where
/// they are not valid UTF-8.
#[verifier::external_body]
fn string_from_utf8(bytes: Vec<u8>) -> (r: Option<String>)
    ensures
        match r {
            Some(s) => valid_utf8(bytes@) && s@ == decode_utf8(bytes@),
            None => !valid_utf8(bytes@),
        },
{
    String::from_utf8(bytes).ok()
}

/// `serde_json::from_str` for a value: the result holds the members that
/// `json_members` names for the text, and is none where the text is refused.
#[verifier::external_body]
fn json_parse(text: &str) -> (r: Option<serde_json::Value>)
    ensures
        match r {
            Some(value) => json_members(text@) == Some(members(value)),
            None => json_members(text@) is None,
        },
{
    serde_json::from_str::<serde_json::Value>(text).ok()
}

/// Indexing a JSON value by a name, then `Value::as_str`: the string under
/// the name, and none where the value has no member of that name whose value
/// is a string.
#[verifier::external_body]
fn json_string(value: &serde_json::Value, name: &str) -> (r: Option<String>)
    ensures
        r.deep_view() == member(members(*value), name@),
{
    value[name].as_str().map(str::to_owned)
}

/// The string under `name`.
pub open spec fn member(m: Map<Seq<char>, Seq<char>>, name: Seq<char>) -> Option<Seq<char>> {
    if m.contains_key(name) {
        Some(m[name])
    } else {
        None
    }
}

/// The text that standard base64 wraps, where `text` is base64 that wraps
/// valid UTF-8.
pub open spec fn unwrapped(text: Seq<char>) -> Option<Seq<char>> {
    match base64_decoded(text) {
        Some(bytes) => if valid_utf8(bytes) {
            Some(decode_utf8(bytes))
        } else {
            None
        },
        None => None,
    }
}

/// The text that standard base64 wraps.
pub fn unwrap_text(text: &str) -> (r: Option<String>)
    ensures
        r.deep_view() == unwrapped(text@),
{
    match base64_decode(text) {
        Some(bytes) => string_from_utf8(bytes),
        None => None,
    }
}

/// `text` as standard base64.
pub fn wrap_text(text: &str) -> (r: String)
    ensures
        r@ == base64_encoded(encode_utf8(text@)),
{
    base64_encode(text.as_bytes())
}

/// The number that a hexadecimal digit stands for.
pub open spec fn hex_value(b: u8) -> Option<u8> {
    if 0x30 <= b <= 0x39 {
        Some((b - 0x30) as u8)
    } else if 0x41 <= b <= 0x46 {
        Some((b - 0x41 + 10) as u8)
    } else if 0x61 <= b <= 0x66 {
        Some((b - 0x61 + 10) as u8)
    } else {
        None
    }
}

/// Whether `b` begins with a percent escape: `%` and two hexadecimal digits.
pub open spec fn escape_at_front(b: Seq<u8>) -> bool {
    b.len() >= 3 && b[0] == 0x25 && hex_value(b[1]) is Some && hex_value(b[2]) is Some
}

/// The bytes with each percent escape replaced by the byte that it writes.
pub open spec fn percent_decoded(b: Seq<u8>) -> Seq<u8>
    decreases b.len(),
{
    if b.len() == 0 {
        Seq::empty()
    } else if escape_at_front(b) {
        seq![(hex_value(b[1])->0 * 16 + hex_value(b[2])->0) as u8] + percent_decoded(b.skip(3))
    } else {
        seq![b[0]] + percent_decoded(b.skip(1))
    }
}

/// A text with its percent escapes resolved; the text itself where what the
/// escapes write is not valid UTF-8.
pub open spec fn unescaped(text: Seq<char>) -> Seq<char> {
    let bytes = percent_decoded(encode_utf8(text));
    if valid_utf8(bytes) {
        decode_utf8(bytes)
    } else {
        text
    }
}

fn hex_digit(b: u8) -> (r: Option<u8>)
    ensures
        r == hex_value(b),
        r matches Some(v) ==> v < 16,
{
    if 0x30 <= b && b <= 0x39 {
        Some(b - 0x30)
    } else if 0x41 <= b && b <= 0x46 {
        Some(b - 0x41 + 10)
    } else if 0x61 <= b && b <= 0x66 {
        Some(b - 0x61 + 10)
    } else {
        None
    }
}

/// Replaces each percent escape by the byte that it writes.
pub fn percent_decode(b: &[u8]) -> (r: Vec<u8>)
    ensures
        r@ == percent_decoded(b@),
{
    let mut out: Vec<u8> = Vec::new();
    let mut i: usize = 0;
    assert(b@.skip(0) =~= b@);
    while i < b.len()
        invariant
            i <= b.len(),
            percent_decoded(b@) == out@ + percent_decoded(b@.skip(i as int)),
        decreases b.len() - i,
    {
        let ghost rest = b@.skip(i as int);
        let mut escaped: Option<u8> = None;
        if b[i] == 0x25 && b.len() - i >= 3 {
            match (hex_digit(b[i + 1]), hex_digit(b[i + 2])) {
                (Some(hi), Some(lo)) => {
                    escaped = Some(hi * 16 + lo);
                },
                _ => {},
            }
        }
        match escaped {
            Some(byte) => {
                assert(escape_at_front(rest));
                assert(rest.skip(3) =~= b@.skip(i + 3));
                assert(out@.push(byte) + percent_decoded(rest.skip(3)) =~= out@ + (seq![byte]
                    + percent_decoded(rest.skip(3))));
                out.push(byte);
                i += 3;
            },
            None => {
                assert(!escape_at_front(rest));
                assert(rest.skip(1) =~= b@.skip(i + 1));
                assert(out@.push(rest[0]) + percent_decoded(rest.skip(1)) =~= out@ + (seq![rest[0]]
                    + percent_decoded(rest.skip(1))));
                out.push(b[i]);
                i += 1;
            },
        }
    }
    assert(out@ + Seq::<u8>::empty() =~= out@);
    out
}

/// Resolves the percent escapes of a text.
pub fn unescape(text: String) -> (r: String)
    ensures
        r@ == unescaped(text@),
{
    let bytes = percent_decode(text.as_str().as_bytes());
    match string_from_utf8(bytes) {
        Some(s) => s,
        None => text,
    }
}

/// The string members of a JSON object, read one name at a time.
pub struct JsonObject {
    value: serde_json::Value,
}

impl JsonObject {
    /// The names with their strings.
    pub closed spec fn strings(&self) -> Map<Seq<char>, Seq<char>> {
        members(self.value)
    }

    /// Reads a JSON text.
    pub fn parse(text: &str) -> (r: Option<JsonObject>)
        ensures
            match r {
                Some(object) => json_members(text@) == Some(object.strings()),
                None => json_members(text@) is None,
            },
    {
        match json_parse(text) {
            Some(value) => Some(JsonObject { value }),
            None => None,
        }
    }

    /// The string under `name`.
    pub fn string(&self, name: &str) -> (r: Option<String>)
        ensures
            r.deep_view() == member(self.strings(), name@),
    {
        json_string(&self.value, name)
    }
}

} // verus!
