//! A plain-data JSON tree, obtained from `serde_json`'s parser through a
//! small trusted boundary. All decoding logic works on this tree and is
//! verified; only the parse itself is taken on trust.

use vstd::prelude::*;
use crate::numeral::str_eq;

verus! {

/// A parsed JSON document. Numbers are kept as their decimal rendering, so
/// the tree is plain data throughout; object entries keep the parser's order.
#[derive(Debug)]
pub enum JsonValue {
    Null,
    Bool(bool),
    /// A JSON number, as the text `serde_json` renders it with.
    Num(String),
    Str(String),
    Array(Vec<JsonValue>),
    Object(Vec<(String, JsonValue)>),
}

/// An opaque handle for `serde_json`'s value type, so that the trusted
/// boundary below can mention it.
#[verifier::external_type_specification]
#[verifier::external_body]
pub struct ExValue(serde_json::Value);

/// The `JsonValue` tree that mirrors a `serde_json::Value`, variant by
/// variant, with numbers as their decimal rendering.
pub uninterp spec fn json_tree(v: serde_json::Value) -> JsonValue;

/// What `serde_json::from_str` makes of a text: `None` where the text is not
/// well-formed JSON, otherwise the parsed tree. The outcome depends on the
/// text alone.
pub uninterp spec fn parsed_json(s: Seq<char>) -> Option<JsonValue>;

/// Relies on `serde_json::from_str::<Value>`: parsing is a function of the
/// input text, failing exactly on malformed JSON.
#[verifier::external_body]
fn json_parse(text: &str) -> (r: Option<serde_json::Value>)
    ensures
        match r {
            Some(v) => parsed_json(text@) == Some(json_tree(v)),
            None => parsed_json(text@) is None,
        },
{
    serde_json::from_str::<serde_json::Value>(text).ok()
}

/// Relies on the shape of `serde_json::Value`: each variant is carried over
/// one to one, numbers through `Number`'s `Display` rendering.
#[verifier::external_body]
fn json_convert(v: serde_json::Value) -> (r: JsonValue)
    ensures
        r == json_tree(v),
{
    match v {
        serde_json::Value::Null => JsonValue::Null,
        serde_json::Value::Bool(b) => JsonValue::Bool(b),
        serde_json::Value::Number(n) => JsonValue::Num(n.to_string()),
        serde_json::Value::String(s) => JsonValue::Str(s),
        serde_json::Value::Array(a) => JsonValue::Array(a.into_iter().map(json_convert).collect()),
        serde_json::Value::Object(m) => JsonValue::Object(
            m.into_iter().map(|p| (p.0, json_convert(p.1))).collect(),
        ),
    }
}

/// Parses a JSON text into a plain tree; `None` on malformed input.
pub fn parse_json(text: &str) -> (r: Option<JsonValue>)
    ensures
        r == parsed_json(text@),
{
    match json_parse(text) {
        Some(v) => Some(json_convert(v)),
        None => None,
    }
}

/// The position of the first entry with the given key, or the length of the
/// entry list where no entry has it.
pub open spec fn spec_key_index(o: Seq<(String, JsonValue)>, key: Seq<char>) -> int
    decreases o.len(),
{
    if o.len() == 0 {
        0
    } else if o[0].0@ == key {
        0
    } else {
        1 + spec_key_index(o.drop_first(), key)
    }
}

/// Taking a field out of an object's entries: the value of the first entry
/// with the key, and the entries with that entry removed; `None` where the
/// key is absent.
pub open spec fn spec_take(o: Seq<(String, JsonValue)>, key: Seq<char>) -> Option<
    (JsonValue, Seq<(String, JsonValue)>),
> {
    let i = spec_key_index(o, key);
    if i < o.len() {
        Some((o[i].1, o.remove(i)))
    } else {
        None
    }
}

pub proof fn lemma_key_index(o: Seq<(String, JsonValue)>, key: Seq<char>)
    ensures
        0 <= spec_key_index(o, key) <= o.len(),
        spec_key_index(o, key) < o.len() ==> o[spec_key_index(o, key)].0@ == key,
        forall|j: int| 0 <= j < spec_key_index(o, key) ==> o[j].0@ != key,
    decreases o.len(),
{
    if o.len() > 0 && o[0].0@ != key {
        lemma_key_index(o.drop_first(), key);
        assert forall|j: int| 0 <= j < spec_key_index(o, key) implies o[j].0@ != key by {
            if j > 0 {
                assert(o.drop_first()[j - 1] == o[j]);
            }
        }
    }
}

/// Removes the first entry with the given key from an object's entries and
/// hands its value out; `None` (and no change) where the key is absent.
pub fn take_field(o: &mut Vec<(String, JsonValue)>, key: &str) -> (r: Option<JsonValue>)
    ensures
        match r {
            Some(v) => {
                &&& spec_take(old(o)@, key@) matches Some(p)
                &&& v == p.0
                &&& final(o)@ == p.1
            },
            None => {
                &&& spec_take(old(o)@, key@) is None
                &&& final(o)@ == old(o)@
            },
        },
{
    let ghost orig = o@;
    let mut i: usize = 0;
    while i < o.len()
        invariant
            old(o)@ == orig,
            o@ == orig,
            0 <= i <= o@.len(),
            forall|j: int| 0 <= j < i ==> o@[j].0@ != key@,
        decreases o@.len() - i,
    {
        if str_eq(o[i].0.as_str(), key) {
            proof {
                lemma_key_index(orig, key@);
                assert(spec_key_index(orig, key@) == i);
            }
            let (_name, value) = o.remove(i);
            proof {
                assert(spec_take(old(o)@, key@) matches Some(p) && value == p.0 && o@ == p.1);
            }
            return Some(value);
        }
        i += 1;
    }
    proof {
        lemma_key_index(orig, key@);
    }
    None
}

} // verus!
