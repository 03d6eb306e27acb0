//! JSON values as the protocol's replies carry them, and the JSON strategy
//! of the frame reader.
use vstd::prelude::*;
use crate::frame::{Error, text_of, utf8_str, ends_in_partial_char, lemma_utf8_prefix};
use vstd::utf8::valid_utf8;

verus! {

/// A JSON number, split as the parser holds it.
#[derive(Debug, PartialEq)]
pub enum JsonNumber {
    /// An integer of zero or more.
    PosInt(u64),
    /// An integer below zero.
    NegInt(i64),
    /// A number with a fraction or an exponent; its value is not kept.
    Float,
}

/// A parsed JSON value. An object holds each key once, its entries sorted
/// by key.
#[derive(Debug, PartialEq)]
pub enum JsonValue {
    Null,
    Bool(bool),
    Number(JsonNumber),
    Str(String),
    Array(Vec<JsonValue>),
    Object(Vec<(String, JsonValue)>),
}

/// What parsing a text as one JSON value gives: the value, `Incomplete`
/// where the text ends inside a value, `Malformed` where it cannot start one.
pub uninterp spec fn json_from_text(text: Seq<char>) -> Result<JsonValue, Error>;

#[verifier::external_type_specification]
#[verifier::external_body]
pub struct ExValue(serde_json::Value);

/// Relies on serde_json::Value's variants and serde_json::Number's
/// accessors: moves a parsed value into the library's own form.
#[verifier::external_body]
fn json_value_of(v: serde_json::Value) -> JsonValue {
    match v {
        serde_json::Value::Null => JsonValue::Null,
        serde_json::Value::Bool(b) => JsonValue::Bool(b),
        serde_json::Value::Number(n) => JsonValue::Number(match (n.as_u64(), n.as_i64()) {
            (Some(u), _) => JsonNumber::PosInt(u),
            (None, Some(i)) => JsonNumber::NegInt(i),
            (None, None) => JsonNumber::Float,
        }),
        serde_json::Value::String(s) => JsonValue::Str(s),
        serde_json::Value::Array(a) => JsonValue::Array(a.into_iter().map(json_value_of).collect()),
        serde_json::Value::Object(o) => JsonValue::Object(
            o.into_iter().map(|(k, x)| (k, json_value_of(x))).collect(),
        ),
    }
}

/// Relies on serde_json::from_str::<serde_json::Value>: the outcome depends
/// on the text alone; an error of category Eof (the text ends inside a value)
/// is reported as `Incomplete`, any other error as `Malformed`.
#[verifier::external_body]
fn parse_json(text: &str) -> (r: Result<JsonValue, Error>)
    ensures
        r == json_from_text(text@),
        r matches Err(x) ==> x == Error::Incomplete || x == Error::Malformed,
{
    match serde_json::from_str::<serde_json::Value>(text) {
        Ok(v) => Ok(json_value_of(v)),
        Err(e) if e.classify() == serde_json::error::Category::Eof => Err(Error::Incomplete),
        Err(_) => Err(Error::Malformed),
    }
}

/// What the JSON strategy gives on the bytes `b`: the value that all of
/// them spell, with the count of bytes it took. Bytes that end inside a
/// character ask for more bytes.
pub open spec fn json_outcome(b: Seq<u8>) -> Result<(JsonValue, int), Error> {
    match text_of(b) {
        None => if ends_in_partial_char(b) {
            Err(Error::Incomplete)
        } else {
            Err(Error::BadEncoding)
        },
        Some(t) => match json_from_text(t) {
            Ok(v) => Ok((v, b.len() as int)),
            Err(Error::Incomplete) => Err(Error::Incomplete),
            Err(_) => Err(Error::Malformed),
        },
    }
}

/// A chunk that ends inside a character never makes the JSON strategy fail
/// on encoding: bytes that UTF-8 text starts with give no `BadEncoding`.
pub proof fn lemma_json_prefix_encoding(b: Seq<u8>, more: Seq<u8>)
    requires
        valid_utf8(b + more),
    ensures
        json_outcome(b) != Err::<(JsonValue, int), Error>(Error::BadEncoding),
{
    if !valid_utf8(b) {
        lemma_utf8_prefix(b, more);
    }
}

/// What the frame reader with the JSON strategy returns when, after the
/// bytes `acc`, the stream brings `chunks` one after the other: it tries the
/// strategy after each arrival and stops at the first outcome that does not
/// ask for more bytes.
pub open spec fn json_in_chunks(acc: Seq<u8>, chunks: Seq<Seq<u8>>) -> Result<(JsonValue, int), Error>
    decreases chunks.len(),
{
    if chunks.len() == 0 || json_outcome(acc) != Err::<(JsonValue, int), Error>(Error::Incomplete) {
        json_outcome(acc)
    } else {
        json_in_chunks(acc + chunks[0], chunks.drop_first())
    }
}

/// However a reply that is UTF-8 text is cut into chunks, the frame reader
/// with the JSON strategy never fails on its encoding.
pub proof fn lemma_json_chunks_encoding(acc: Seq<u8>, chunks: Seq<Seq<u8>>)
    requires
        valid_utf8(acc + chunks.flatten()),
    ensures
        json_in_chunks(acc, chunks) != Err::<(JsonValue, int), Error>(Error::BadEncoding),
    decreases chunks.len(),
{
    if chunks.len() == 0 || json_outcome(acc) != Err::<(JsonValue, int), Error>(Error::Incomplete) {
        lemma_json_prefix_encoding(acc, chunks.flatten());
    } else {
        assert(acc + chunks[0] + chunks.drop_first().flatten() =~= acc + chunks.flatten());
        lemma_json_chunks_encoding(acc + chunks[0], chunks.drop_first());
    }
}

/// The JSON strategy: reads one JSON value that spans all the bytes
/// received so far.
pub struct JsonResponse;

impl JsonResponse {
    /// Parses all of `buf` as one JSON value.
    pub fn read(&self, buf: &[u8]) -> (r: Result<(JsonValue, usize), Error>)
        ensures
            match json_outcome(buf@) {
                Ok((v, n)) => r is Ok && r->Ok_0.0 == v && r->Ok_0.1 == n,
                Err(x) => r == Err::<(JsonValue, usize), Error>(x),
            },
    {
        match utf8_str(buf) {
            Err(true) => Err(Error::Incomplete),
            Err(false) => Err(Error::BadEncoding),
            Ok(text) => match parse_json(text) {
                Ok(v) => Ok((v, buf.len())),
                Err(e) => Err(e),
            },
        }
    }

    /// One attempt of the frame reader with this strategy: on success the
    /// value is returned and the buffer is emptied; on failure the buffer is
    /// unchanged.
    pub fn read_frame(&self, buffer: &mut Vec<u8>) -> (r: Result<JsonValue, Error>)
        ensures
            match json_outcome(old(buffer)@) {
                Ok((v, n)) => r == Ok::<JsonValue, Error>(v) && final(buffer)@ == Seq::<u8>::empty(),
                Err(x) => r == Err::<JsonValue, Error>(x) && final(buffer)@ == old(buffer)@,
            },
    {
        match self.read(buffer.as_slice()) {
            Ok((v, used)) => {
                let rest = buffer.split_off(used);
                *buffer = rest;
                Ok(v)
            },
            Err(e) => Err(e),
        }
    }
}

/// The index of the first entry from `i` on whose key is `key`.
pub open spec fn find_key(entries: Seq<(String, JsonValue)>, key: Seq<char>, i: int) -> Option<int>
    decreases entries.len() - i,
{
    if i < 0 || i >= entries.len() {
        None
    } else if entries[i].0@ == key {
        Some(i)
    } else {
        find_key(entries, key, i + 1)
    }
}

/// The value of field `key` of an object; nothing for another value.
pub open spec fn field(v: JsonValue, key: Seq<char>) -> Option<JsonValue> {
    match v {
        JsonValue::Object(entries) => match find_key(entries@, key, 0) {
            Some(i) => Some(entries@[i].1),
            None => None,
        },
        _ => None,
    }
}

/// A found key lies inside the entries.
pub proof fn lemma_find_key_bounds(entries: Seq<(String, JsonValue)>, key: Seq<char>, i: int)
    ensures
        find_key(entries, key, i) matches Some(j) ==> i <= j < entries.len() && entries[j].0@
            == key,
    decreases entries.len() - i,
{
    if !(i < 0 || i >= entries.len()) && entries[i].0@ != key {
        lemma_find_key_bounds(entries, key, i + 1);
    }
}

/// Where field `key` stands among the entries, if it is there.
pub fn key_index(entries: &Vec<(String, JsonValue)>, key: &str) -> (r: Option<usize>)
    ensures
        r matches Some(i) ==> find_key(entries@, key@, 0) == Some(i as int),
        r is None ==> find_key(entries@, key@, 0) is None,
{
    let wanted = key.to_owned();
    let mut i: usize = 0;
    while i < entries.len()
        invariant
            i <= entries@.len(),
            wanted@ == key@,
            find_key(entries@, key@, 0) == find_key(entries@, key@, i as int),
        decreases entries@.len() - i,
    {
        if entries[i].0 == wanted {
            return Some(i);
        }
        i = i + 1;
    }
    None
}

/// Takes the value of field `key` out of an object.
pub fn take_field(v: JsonValue, key: &str) -> (r: Option<JsonValue>)
    ensures
        r == field(v, key@),
{
    match v {
        JsonValue::Object(mut entries) => match key_index(&entries, key) {
            Some(i) => {
                proof {
                    lemma_find_key_bounds(entries@, key@, 0);
                }
                let (_, x) = entries.remove(i);
                Some(x)
            },
            None => None,
        },
        _ => None,
    }
}

/// The value of field `key` of an object, by reference.
pub fn get_field<'a>(v: &'a JsonValue, key: &str) -> (r: Option<&'a JsonValue>)
    ensures
        r matches Some(x) ==> field(*v, key@) == Some(*x),
        r is None ==> field(*v, key@) is None,
{
    match v {
        JsonValue::Object(entries) => match key_index(entries, key) {
            Some(i) => {
                proof {
                    lemma_find_key_bounds(entries@, key@, 0);
                }
                Some(&entries[i].1)
            },
            None => None,
        },
        _ => None,
    }
}

/// Reads field `key` of an object as a string.
pub fn str_field(v: &JsonValue, key: &str) -> (r: Option<String>)
    ensures
        field(*v, key@) matches Some(JsonValue::Str(s)) ==> r == Some(s),
        !(field(*v, key@) matches Some(JsonValue::Str(_))) ==> r is None,
{
    match v {
        JsonValue::Object(entries) => match key_index(entries, key) {
            Some(i) => {
                proof {
                    lemma_find_key_bounds(entries@, key@, 0);
                }
                match &entries[i].1 {
                    JsonValue::Str(s) => Some(s.clone()),
                    _ => None,
                }
            },
            None => None,
        },
        _ => None,
    }
}

} // verus!
