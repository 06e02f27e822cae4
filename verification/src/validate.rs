//! The response validator: the single choke point through which every
//! raw HTTP response body passes before becoming a typed result.
//!
//! Validation has two sequential fallible stages. Stage one interprets
//! the body as a JSON document; a body that is not valid JSON at all
//! yields [`Error::NonJsonResponse`] carrying the raw text. Stage two
//! decodes the document into the operation's typed shape; a document of
//! the wrong shape yields [`Error::InvalidResponse`] carrying the
//! document exactly as received. The HTTP status code is never used to
//! short-circuit: any decodable body is treated the same way.

use vstd::prelude::*;
use crate::error::{invalid_response, non_json, Error};
use crate::json::{json_of, lookup, lookup_from, parse_json, JsonNumber, JsonValue};
use crate::response::{DeleteResponse, Id, QueryResponse, ResponseVector, Status, UpsertResponse};

verus! {

/// The success tokens the service is known to send: `"ok"`, `"OK"` and
/// `"Ok"`, all equivalent. No other token is accepted.
pub open spec fn status_token_ok(s: Seq<char>) -> bool {
    s == "ok"@ || s == "OK"@ || s == "Ok"@
}

/// Structural decode of a status: a JSON string holding one of the
/// accepted success tokens, and nothing else.
pub open spec fn spec_status(v: JsonValue) -> Option<Status> {
    match v {
        JsonValue::Str(s) => if status_token_ok(s@) {
            Some(Status::Success)
        } else {
            None
        },
        _ => None,
    }
}

/// Structural decode of an identifier, trying the alternatives in a
/// fixed order with no numeric-string coercion: a JSON string is the
/// string variant; an integer that fits the integer variant is the
/// integer variant; anything else fails.
pub open spec fn spec_id(v: JsonValue) -> Option<Id> {
    match v {
        JsonValue::Str(s) => Some(Id::String(s)),
        JsonValue::Num(n) => match n {
            JsonNumber::Int(i) => if -2147483648 <= i && i <= 2147483647 {
                Some(Id::Int(i as i32))
            } else {
                None
            },
            _ => None,
        },
        _ => None,
    }
}

/// The number a document node holds, if it is a number node.
pub open spec fn num_of(v: JsonValue) -> Option<JsonNumber> {
    match v {
        JsonValue::Num(n) => Some(n),
        _ => None,
    }
}

/// Structural decode of an upsert outcome: an object whose `status`
/// field decodes as a status. Other fields are ignored.
pub open spec fn spec_upsert(v: JsonValue) -> Option<UpsertResponse> {
    match v {
        JsonValue::Object(entries) => match lookup(entries@, "status"@) {
            Some(sv) => match spec_status(sv) {
                Some(st) => Some(UpsertResponse { status: st }),
                None => None,
            },
            None => None,
        },
        _ => None,
    }
}

/// Structural decode of a delete outcome: an object whose `status`
/// field decodes as a status. Other fields are ignored.
pub open spec fn spec_delete(v: JsonValue) -> Option<DeleteResponse> {
    match v {
        JsonValue::Object(entries) => match lookup(entries@, "status"@) {
            Some(sv) => match spec_status(sv) {
                Some(st) => Some(DeleteResponse { status: st }),
                None => None,
            },
            None => None,
        },
        _ => None,
    }
}

/// Whether an optional `vector` field is acceptable: absent, null, or
/// an array of numbers.
pub open spec fn opt_vector_ok(o: Option<JsonValue>) -> bool {
    match o {
        None => true,
        Some(w) => match w {
            JsonValue::Null => true,
            JsonValue::Array(a) => forall|j: int|
                0 <= j < a@.len() ==> num_of(a@[j]) is Some,
            _ => false,
        },
    }
}

/// Whether an optional `attributes` field is acceptable: absent, null,
/// or an object.
pub open spec fn opt_attributes_ok(o: Option<JsonValue>) -> bool {
    match o {
        None => true,
        Some(w) => match w {
            JsonValue::Null => true,
            JsonValue::Object(_) => true,
            _ => false,
        },
    }
}

/// Whether a document has the shape of one query match: an object with
/// a numeric `dist`, a decodable `id`, and acceptable optional `vector`
/// and `attributes` fields. Other fields are ignored.
pub open spec fn vector_decodable(v: JsonValue) -> bool {
    match v {
        JsonValue::Object(entries) => {
            &&& (match lookup(entries@, "dist"@) {
                Some(w) => w matches JsonValue::Num(_),
                None => false,
            })
            &&& (match lookup(entries@, "id"@) {
                Some(w) => spec_id(w) is Some,
                None => false,
            })
            &&& opt_vector_ok(lookup(entries@, "vector"@))
            &&& opt_attributes_ok(lookup(entries@, "attributes"@))
        },
        _ => false,
    }
}

/// How a decoded optional `vector` field relates to its document form:
/// an absent or null field decodes to the field being absent — never to
/// an empty default — and an array decodes to its numbers in order.
pub open spec fn vector_field_decodes(o: Option<JsonValue>, field: Option<Vec<JsonNumber>>) -> bool {
    match o {
        None => field is None,
        Some(w) => match w {
            JsonValue::Null => field is None,
            JsonValue::Array(a) => (match field {
                Some(nums) => nums@.len() == a@.len() && forall|j: int|
                    0 <= j < a@.len() ==> num_of(a@[j]) == Some(nums@[j]),
                None => false,
            }),
            _ => false,
        },
    }
}

/// How a decoded optional `attributes` field relates to its document
/// form: absent or null decodes to the field being absent; an object
/// decodes to its entries, kept whole and in order.
pub open spec fn attributes_field_decodes(
    o: Option<JsonValue>,
    field: Option<Vec<(String, JsonValue)>>,
) -> bool {
    match o {
        None => field is None,
        Some(w) => match w {
            JsonValue::Null => field is None,
            JsonValue::Object(m) => field == Some(m),
            _ => false,
        },
    }
}

/// How one decoded query match relates to its document form: every
/// field of the match is pinned by the corresponding field of the
/// object.
pub open spec fn decodes_vector(v: JsonValue, rv: ResponseVector) -> bool {
    match v {
        JsonValue::Object(entries) => {
            &&& (match lookup(entries@, "dist"@) {
                Some(w) => num_of(w) == Some(rv.dist),
                None => false,
            })
            &&& (match lookup(entries@, "id"@) {
                Some(w) => spec_id(w) == Some(rv.id),
                None => false,
            })
            &&& vector_field_decodes(lookup(entries@, "vector"@), rv.vector)
            &&& attributes_field_decodes(lookup(entries@, "attributes"@), rv.attributes)
        },
        _ => false,
    }
}

/// Whether a document has the shape of a query outcome: a bare array
/// whose every element has the shape of a match.
pub open spec fn query_decodable(v: JsonValue) -> bool {
    match v {
        JsonValue::Array(elems) => forall|j: int|
            0 <= j < elems@.len() ==> vector_decodable(elems@[j]),
        _ => false,
    }
}

/// How a decoded query outcome relates to its document form: one match
/// per array element, in the array's own order.
pub open spec fn query_decodes(v: JsonValue, q: QueryResponse) -> bool {
    match v {
        JsonValue::Array(elems) => q.vectors@.len() == elems@.len() && forall|j: int|
            0 <= j < elems@.len() ==> decodes_vector(elems@[j], q.vectors@[j]),
        _ => false,
    }
}

/// The typed result stage two owes for an upsert document: the decoded
/// response, or the document itself inside `InvalidResponse`.
pub open spec fn spec_validated_upsert(v: JsonValue) -> Result<UpsertResponse, Error> {
    match spec_upsert(v) {
        Some(u) => Ok(u),
        None => Err(Error::InvalidResponse(v)),
    }
}

/// The typed result stage two owes for a delete document.
pub open spec fn spec_validated_delete(v: JsonValue) -> Result<DeleteResponse, Error> {
    match spec_delete(v) {
        Some(d) => Ok(d),
        None => Err(Error::InvalidResponse(v)),
    }
}

/// The typed result stage two owes for a query document: a decoded
/// response exactly when the document has the query shape, and the
/// document itself inside `InvalidResponse` otherwise.
pub open spec fn spec_validated_query(v: JsonValue, r: Result<QueryResponse, Error>) -> bool {
    if query_decodable(v) {
        match r {
            Ok(q) => query_decodes(v, q),
            Err(_) => false,
        }
    } else {
        r == Err::<QueryResponse, Error>(Error::InvalidResponse(v))
    }
}

/// Whether a result is a stage-one failure carrying this raw body.
pub open spec fn is_non_json_err<T>(r: Result<T, Error>, body: Seq<char>) -> bool {
    match r {
        Err(e) => match e {
            Error::NonJsonResponse(b) => b@ == body,
            _ => false,
        },
        Ok(_) => false,
    }
}

fn string_eq(s: &String, t: &str) -> (b: bool)
    ensures
        b == (s@ == t@),
{
    let owned: String = t.to_owned();
    *s == owned
}

/// First-occurrence lookup of `key` in an object's entry list.
fn find<'a>(entries: &'a Vec<(String, JsonValue)>, key: &str) -> (r: Option<&'a JsonValue>)
    ensures
        match r {
            Some(v) => lookup(entries@, key@) == Some(*v),
            None => lookup(entries@, key@) is None,
        },
{
    let mut i: usize = 0;
    while i < entries.len()
        invariant
            0 <= i <= entries@.len(),
            lookup(entries@, key@) == lookup_from(entries@, key@, i as int),
        decreases entries@.len() - i,
    {
        if string_eq(&entries[i].0, key) {
            return Some(&entries[i].1);
        }
        proof {
            assert(lookup_from(entries@, key@, i as int) == lookup_from(
                entries@,
                key@,
                i as int + 1,
            ));
        }
        i = i + 1;
    }
    None
}

/// Structural decode of a status document node.
pub fn decode_status(v: &JsonValue) -> (r: Option<Status>)
    ensures
        r == spec_status(*v),
{
    match v {
        JsonValue::Str(s) => {
            if string_eq(s, "ok") || string_eq(s, "OK") || string_eq(s, "Ok") {
                Some(Status::Success)
            } else {
                None
            }
        },
        _ => None,
    }
}

/// Structural decode of an upsert document.
pub fn decode_upsert(v: &JsonValue) -> (r: Option<UpsertResponse>)
    ensures
        r == spec_upsert(*v),
{
    match v {
        JsonValue::Object(entries) => match find(entries, "status") {
            Some(sv) => match decode_status(sv) {
                Some(st) => Some(UpsertResponse { status: st }),
                None => None,
            },
            None => None,
        },
        _ => None,
    }
}

/// Structural decode of a delete document.
pub fn decode_delete(v: &JsonValue) -> (r: Option<DeleteResponse>)
    ensures
        r == spec_delete(*v),
{
    match v {
        JsonValue::Object(entries) => match find(entries, "status") {
            Some(sv) => match decode_status(sv) {
                Some(st) => Some(DeleteResponse { status: st }),
                None => None,
            },
            None => None,
        },
        _ => None,
    }
}

fn check_id(v: &JsonValue) -> (b: bool)
    ensures
        b == (spec_id(*v) is Some),
{
    match v {
        JsonValue::Str(_) => true,
        JsonValue::Num(n) => match n {
            JsonNumber::Int(i) => -2147483648i64 <= *i && *i <= 2147483647i64,
            _ => false,
        },
        _ => false,
    }
}

fn all_numbers(a: &Vec<JsonValue>) -> (b: bool)
    ensures
        b == (forall|j: int| 0 <= j < a@.len() ==> num_of(a@[j]) is Some),
{
    let mut i: usize = 0;
    while i < a.len()
        invariant
            0 <= i <= a@.len(),
            forall|j: int| 0 <= j < i ==> num_of(a@[j]) is Some,
        decreases a@.len() - i,
    {
        match &a[i] {
            JsonValue::Num(_) => {},
            _ => {
                return false;
            },
        }
        i = i + 1;
    }
    true
}

/// Whether a document has the shape of one query match.
pub fn check_vector(v: &JsonValue) -> (b: bool)
    ensures
        b == vector_decodable(*v),
{
    match v {
        JsonValue::Object(entries) => {
            let dist_ok: bool = match find(entries, "dist") {
                Some(w) => match w {
                    JsonValue::Num(_) => true,
                    _ => false,
                },
                None => false,
            };
            let id_ok: bool = match find(entries, "id") {
                Some(w) => check_id(w),
                None => false,
            };
            let vec_ok: bool = match find(entries, "vector") {
                None => true,
                Some(w) => match w {
                    JsonValue::Null => true,
                    JsonValue::Array(a) => all_numbers(a),
                    _ => false,
                },
            };
            let attrs_ok: bool = match find(entries, "attributes") {
                None => true,
                Some(w) => match w {
                    JsonValue::Null => true,
                    JsonValue::Object(_) => true,
                    _ => false,
                },
            };
            dist_ok && id_ok && vec_ok && attrs_ok
        },
        _ => false,
    }
}

fn nums_of(a: &Vec<JsonValue>) -> (r: Vec<JsonNumber>)
    requires
        forall|j: int| 0 <= j < a@.len() ==> num_of(a@[j]) is Some,
    ensures
        r@.len() == a@.len(),
        forall|j: int| 0 <= j < a@.len() ==> num_of(a@[j]) == Some(r@[j]),
{
    let mut out: Vec<JsonNumber> = Vec::new();
    let mut i: usize = 0;
    while i < a.len()
        invariant
            0 <= i <= a@.len(),
            out@.len() == i,
            forall|j: int| 0 <= j < a@.len() ==> num_of(a@[j]) is Some,
            forall|j: int| 0 <= j < i ==> num_of(a@[j]) == Some(out@[j]),
        decreases a@.len() - i,
    {
        match &a[i] {
            JsonValue::Num(n) => out.push(*n),
            _ => {
                proof {
                    assert(false);
                }
            },
        }
        i = i + 1;
    }
    out
}

fn take_id(v: JsonValue) -> (r: Id)
    requires
        spec_id(v) is Some,
    ensures
        Some(r) == spec_id(v),
{
    match v {
        JsonValue::Str(s) => Id::String(s),
        JsonValue::Num(n) => match n {
            JsonNumber::Int(i) => Id::Int(i as i32),
            _ => {
                proof {
                    assert(false);
                }
                Id::Int(0)
            },
        },
        _ => {
            proof {
                assert(false);
            }
            Id::Int(0)
        },
    }
}

/// Structural decode of one query match, consuming its document. The
/// document is required to have the match shape (see [`check_vector`]).
pub fn decode_vector(v: JsonValue) -> (r: ResponseVector)
    requires
        vector_decodable(v),
    ensures
        decodes_vector(v, r),
{
    match v {
        JsonValue::Object(mut entries) => {
            let ghost orig = entries@;
            let mut dist_slot: Option<JsonValue> = None;
            let mut id_slot: Option<JsonValue> = None;
            let mut vector_slot: Option<JsonValue> = None;
            let mut attrs_slot: Option<JsonValue> = None;
            while entries.len() > 0
                invariant
                    entries@.len() <= orig.len(),
                    entries@ == orig.subrange(0, entries@.len() as int),
                    (match dist_slot {
                        Some(w) => lookup_from(orig, "dist"@, entries@.len() as int) == Some(w),
                        None => lookup_from(orig, "dist"@, entries@.len() as int) is None,
                    }),
                    (match id_slot {
                        Some(w) => lookup_from(orig, "id"@, entries@.len() as int) == Some(w),
                        None => lookup_from(orig, "id"@, entries@.len() as int) is None,
                    }),
                    (match vector_slot {
                        Some(w) => lookup_from(orig, "vector"@, entries@.len() as int) == Some(w),
                        None => lookup_from(orig, "vector"@, entries@.len() as int) is None,
                    }),
                    (match attrs_slot {
                        Some(w) => lookup_from(orig, "attributes"@, entries@.len() as int) == Some(
                            w,
                        ),
                        None => lookup_from(orig, "attributes"@, entries@.len() as int) is None,
                    }),
                decreases entries@.len(),
            {
                proof {
                    reveal_strlit("dist");
                    reveal_strlit("id");
                    reveal_strlit("vector");
                    reveal_strlit("attributes");
                }
                let popped = entries.pop();
                let (k, val) = match popped {
                    Some(p) => p,
                    None => {
                        proof {
                            assert(false);
                        }
                        (String::new(), JsonValue::Null)
                    },
                };
                if string_eq(&k, "dist") {
                    dist_slot = Some(val);
                } else if string_eq(&k, "id") {
                    id_slot = Some(val);
                } else if string_eq(&k, "vector") {
                    vector_slot = Some(val);
                } else if string_eq(&k, "attributes") {
                    attrs_slot = Some(val);
                }
                proof {
                    assert(orig[entries@.len() as int].0 == k);
                    assert("dist"@.len() == 4);
                    assert("id"@.len() == 2);
                    assert("vector"@.len() == 6);
                    assert("attributes"@.len() == 10);
                }
            }
            let dist: JsonNumber = match dist_slot {
                Some(w) => match w {
                    JsonValue::Num(n) => n,
                    _ => {
                        proof {
                            assert(false);
                        }
                        JsonNumber::Int(0)
                    },
                },
                None => {
                    proof {
                        assert(false);
                    }
                    JsonNumber::Int(0)
                },
            };
            let id: Id = match id_slot {
                Some(w) => take_id(w),
                None => {
                    proof {
                        assert(false);
                    }
                    Id::Int(0)
                },
            };
            let vector: Option<Vec<JsonNumber>> = match vector_slot {
                None => None,
                Some(w) => match w {
                    JsonValue::Null => None,
                    JsonValue::Array(a) => Some(nums_of(&a)),
                    _ => {
                        proof {
                            assert(false);
                        }
                        None
                    },
                },
            };
            let attributes: Option<Vec<(String, JsonValue)>> = match attrs_slot {
                None => None,
                Some(w) => match w {
                    JsonValue::Null => None,
                    JsonValue::Object(m) => Some(m),
                    _ => {
                        proof {
                            assert(false);
                        }
                        None
                    },
                },
            };
            ResponseVector { dist, id, vector, attributes }
        },
        _ => {
            proof {
                assert(false);
            }
            ResponseVector { dist: JsonNumber::Int(0), id: Id::Int(0), vector: None, attributes: None }
        },
    }
}

/// Structural decode of a query document: a bare array of match
/// objects becomes the wrapped result type, in input order; any other
/// document, or any undecodable element, gives the whole document back
/// unchanged.
pub fn decode_query(v: JsonValue) -> (r: Result<QueryResponse, JsonValue>)
    ensures
        query_decodable(v) ==> (r matches Ok(q) && query_decodes(v, q)),
        !query_decodable(v) ==> r == Err::<QueryResponse, JsonValue>(v),
{
    match v {
        JsonValue::Array(elems) => {
            let mut all: bool = true;
            let mut i: usize = 0;
            while i < elems.len()
                invariant
                    0 <= i <= elems@.len(),
                    all == (forall|j: int| 0 <= j < i ==> vector_decodable(elems@[j])),
                decreases elems@.len() - i,
            {
                let ok = check_vector(&elems[i]);
                all = all && ok;
                i = i + 1;
            }
            if !all {
                return Err(JsonValue::Array(elems));
            }
            let ghost orig = elems@;
            let mut rest = elems;
            let mut out: Vec<ResponseVector> = Vec::new();
            while rest.len() > 0
                invariant
                    out@.len() + rest@.len() == orig.len(),
                    rest@ == orig.subrange(out@.len() as int, orig.len() as int),
                    forall|j: int| 0 <= j < orig.len() ==> vector_decodable(orig[j]),
                    forall|j: int| 0 <= j < out@.len() ==> decodes_vector(orig[j], out@[j]),
                decreases rest@.len(),
            {
                let ghost done: int = out@.len() as int;
                let x = rest.remove(0);
                proof {
                    assert(x == orig[done]);
                    assert(rest@ =~= orig.subrange(done + 1, orig.len() as int));
                }
                let rv = decode_vector(x);
                out.push(rv);
            }
            Ok(QueryResponse { vectors: out })
        },
        _ => Err(v),
    }
}

/// Validate a raw upsert response body: JSON decode, then structural
/// decode, each failure classified. A body that is not valid JSON
/// yields `NonJsonResponse` carrying the body; valid JSON of the wrong
/// shape yields `InvalidResponse` carrying the parsed document.
pub fn validate_upsert(body: String) -> (r: Result<UpsertResponse, Error>)
    ensures
        json_of(body@) is None ==> is_non_json_err(r, body@),
        json_of(body@) matches Some(v) ==> r == spec_validated_upsert(v),
{
    match parse_json(body.as_str()) {
        None => Err(non_json(body)),
        Some(v) => match decode_upsert(&v) {
            Some(u) => Ok(u),
            None => Err(invalid_response(v)),
        },
    }
}

/// Validate a raw delete response body; stages and classification as in
/// [`validate_upsert`].
pub fn validate_delete(body: String) -> (r: Result<DeleteResponse, Error>)
    ensures
        json_of(body@) is None ==> is_non_json_err(r, body@),
        json_of(body@) matches Some(v) ==> r == spec_validated_delete(v),
{
    match parse_json(body.as_str()) {
        None => Err(non_json(body)),
        Some(v) => match decode_delete(&v) {
            Some(d) => Ok(d),
            None => Err(invalid_response(v)),
        },
    }
}

/// Validate a raw query response body: a bare array of match objects
/// decodes into the wrapped result type in input order; stages and
/// classification as in [`validate_upsert`].
pub fn validate_query(body: String) -> (r: Result<QueryResponse, Error>)
    ensures
        json_of(body@) is None ==> is_non_json_err(r, body@),
        json_of(body@) matches Some(v) ==> spec_validated_query(v, r),
{
    match parse_json(body.as_str()) {
        None => Err(non_json(body)),
        Some(v) => match decode_query(v) {
            Ok(q) => Ok(q),
            Err(w) => Err(invalid_response(w)),
        },
    }
}

/// The JSON form of an identifier: its own textual or numeric value,
/// with no discriminant field.
pub open spec fn id_json(id: Id) -> JsonValue {
    match id {
        Id::String(s) => JsonValue::Str(s),
        Id::Int(i) => JsonValue::Num(JsonNumber::Int(i as i64)),
    }
}

/// Identifier decoding is lossless for an identifier's own JSON form:
/// re-decoding it yields the identifier back, with no coercion between
/// the string and integer variants.
pub proof fn lemma_id_round_trip(id: Id)
    ensures
        spec_id(id_json(id)) == Some(id),
{
}

/// Status tolerance: a document decodes as a status exactly when it is
/// a JSON string holding one of the equivalent success tokens, and the
/// only value it can decode to is the single success value.
pub proof fn lemma_status_tolerance(v: JsonValue)
    ensures
        (spec_status(v) == Some(Status::Success)) <==> (v matches JsonValue::Str(s)
            && status_token_ok(s@)),
        spec_status(v) is Some ==> spec_status(v) == Some(Status::Success),
{
}

/// Stage separation, structural half: an object without a `status`
/// entry never decodes as an upsert or delete outcome, so the validator
/// classifies it as `InvalidResponse`, never as `NonJsonResponse`.
pub proof fn lemma_missing_status_rejected(entries: Vec<(String, JsonValue)>)
    requires
        lookup(entries@, "status"@) is None,
    ensures
        spec_upsert(JsonValue::Object(entries)) is None,
        spec_delete(JsonValue::Object(entries)) is None,
{
}

/// Query wrapping preserves order: when a bare array decodes, the
/// result has one match per element and the match at each index decodes
/// the element at that same index.
pub proof fn lemma_query_order_preserved(elems: Vec<JsonValue>, q: QueryResponse, i: int)
    requires
        query_decodes(JsonValue::Array(elems), q),
        0 <= i < elems@.len(),
    ensures
        q.vectors@.len() == elems@.len(),
        decodes_vector(elems@[i], q.vectors@[i]),
{
}

/// Optional fields stay absent: a match object without a `vector`
/// entry decodes with that field absent — not an error and not an empty
/// default — and likewise for `attributes`.
pub proof fn lemma_optional_fields_absent(entries: Vec<(String, JsonValue)>, rv: ResponseVector)
    requires
        decodes_vector(JsonValue::Object(entries), rv),
    ensures
        lookup(entries@, "vector"@) is None ==> rv.vector is None,
        lookup(entries@, "attributes"@) is None ==> rv.attributes is None,
{
}

} // verus!
