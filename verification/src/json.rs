//! A self-contained JSON document model, and the trusted boundary that
//! parses response text into it.
//!
//! Numbers are kept as plain values: integers as `i64`/`u64`, and any
//! other number as the IEEE-754 bit pattern of its `f64` reading, so
//! that the rest of the crate never touches floating point.

use vstd::prelude::*;

verus! {

/// A JSON number. `Int` covers every integer that fits in `i64`;
/// `UInt` covers the remaining (larger) unsigned integers; `Float`
/// holds the IEEE-754 bit pattern of the `f64` reading of any other
/// numeric token.
#[derive(Debug, Clone, Copy, PartialEq, Eq, Structural)]
pub enum JsonNumber {
    Int(i64),
    UInt(u64),
    Float(u64),
}

/// A whole JSON document. An object is kept as its entry list; entries
/// coming from the parser have distinct keys.
#[derive(Debug)]
pub enum JsonValue {
    Null,
    Bool(bool),
    Num(JsonNumber),
    Str(String),
    Array(Vec<JsonValue>),
    Object(Vec<(String, JsonValue)>),
}

impl Clone for JsonValue {
    /// A deep copy of the document; nothing further is claimed of it.
    #[verifier::loop_isolation(false)]
    fn clone(&self) -> Self
        decreases self,
    {
        broadcast use vstd::std_specs::vec::group_vec_axioms;

        match self {
            JsonValue::Null => JsonValue::Null,
            JsonValue::Bool(b) => JsonValue::Bool(*b),
            JsonValue::Num(n) => JsonValue::Num(*n),
            JsonValue::Str(s) => JsonValue::Str(s.clone()),
            JsonValue::Array(a) => {
                let mut out: Vec<JsonValue> = Vec::new();
                let mut i: usize = 0;
                while i < a.len()
                    invariant
                        0 <= i <= a@.len(),
                        *self == JsonValue::Array(*a),
                    decreases a@.len() - i,
                {
                    proof {
                        assert(decreases_to!(*a => a@));
                        assert(decreases_to!(a@ => a@[i as int]));
                        assert(decreases_to!(*self => a@[i as int]));
                    }
                    out.push(a[i].clone());
                    i = i + 1;
                }
                JsonValue::Array(out)
            },
            JsonValue::Object(entries) => {
                let mut out: Vec<(String, JsonValue)> = Vec::new();
                let mut i: usize = 0;
                while i < entries.len()
                    invariant
                        0 <= i <= entries@.len(),
                        *self == JsonValue::Object(*entries),
                    decreases entries@.len() - i,
                {
                    proof {
                        assert(decreases_to!(*entries => entries@));
                        assert(decreases_to!(entries@ => entries@[i as int]));
                        assert(decreases_to!(entries@[i as int] => entries@[i as int].1));
                        assert(decreases_to!(*self => entries@[i as int].1));
                    }
                    out.push((entries[i].0.clone(), entries[i].1.clone()));
                    i = i + 1;
                }
                JsonValue::Object(out)
            },
        }
    }
}

/// First-occurrence lookup of `key` among the entries of an object,
/// scanning forward from index `i`.
pub open spec fn lookup_from(
    entries: Seq<(String, JsonValue)>,
    key: Seq<char>,
    i: int,
) -> Option<JsonValue>
    decreases entries.len() - i,
{
    if i < 0 || i >= entries.len() {
        None
    } else if entries[i].0@ == key {
        Some(entries[i].1)
    } else {
        lookup_from(entries, key, i + 1)
    }
}

/// The value of the first entry named `key`, if any.
pub open spec fn lookup(entries: Seq<(String, JsonValue)>, key: Seq<char>) -> Option<JsonValue> {
    lookup_from(entries, key, 0)
}

/// The JSON document denoted by a text, if the text is well-formed JSON
/// as the parser reads it; `None` otherwise. Whole-document: no partial
/// decode.
pub uninterp spec fn json_of(s: Seq<char>) -> Option<JsonValue>;

#[verifier::external_type_specification]
#[verifier::external_body]
pub struct ExSerdeValue(serde_json::Value);

#[verifier::external_type_specification]
#[verifier::external_body]
pub struct ExSerdeNumber(serde_json::Number);

/// Carries a parsed `serde_json::Number` over into the crate's own
/// number type: an integer keeps its value, any other number keeps the
/// bit pattern of its `f64` reading. Part of the conversion behind
/// [`parse_json`], which carries the contract.
#[verifier::external_body]
fn lift_number(n: serde_json::Number) -> JsonNumber {
    match (n.as_i64(), n.as_u64(), n.as_f64()) {
        (Some(i), _, _) => JsonNumber::Int(i),
        (_, Some(u), _) => JsonNumber::UInt(u),
        (_, _, f) => JsonNumber::Float(f.map_or(0, |x| x.to_bits())),
    }
}

/// Carries a parsed `serde_json::Value` tree over into the crate's own
/// document type, node for node. Integers keep their value; any other
/// number keeps its `f64` bit pattern. This function only converts; the
/// contract of the parse stands on [`parse_json`].
#[verifier::external_body]
fn lift_json(v: serde_json::Value) -> JsonValue {
    match v {
        serde_json::Value::Null => JsonValue::Null,
        serde_json::Value::Bool(b) => JsonValue::Bool(b),
        serde_json::Value::String(s) => JsonValue::Str(s),
        serde_json::Value::Number(n) => JsonValue::Num(lift_number(n)),
        serde_json::Value::Array(a) => JsonValue::Array(a.into_iter().map(lift_json).collect()),
        serde_json::Value::Object(m) => JsonValue::Object(m.into_iter().map(|(k, w)| (k, lift_json(w))).collect()),
    }
}

/// Relies on `serde_json::from_str::<serde_json::Value>`: whole-document
/// JSON parsing, a deterministic function of the input text alone. The
/// parsed tree is carried into the crate's own type by [`lift_json`];
/// the composed result is the document this text denotes.
#[verifier::external_body]
pub fn parse_json(body: &str) -> (r: Option<JsonValue>)
    ensures
        r == json_of(body@),
{
    match serde_json::from_str::<serde_json::Value>(body) {
        Ok(v) => Some(lift_json(v)),
        Err(_) => None,
    }
}

} // verus!
