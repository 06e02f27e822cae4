//! Typed shapes for the three operation outcomes, and the identifier
//! type used as a vector's primary key.

use vstd::prelude::*;
use vstd::string::StringExecFns;
use crate::json::{JsonNumber, JsonValue};

verus! {

/// The normalized success marker. The service is inconsistent about the
/// casing of its success token between endpoints, so decoding accepts
/// `"ok"`, `"OK"` and `"Ok"` as this single value; any other token is a
/// structural-decode failure, never a default.
#[derive(Debug, Clone, Copy, PartialEq, Eq, Structural)]
pub enum Status {
    Success,
}

/// Outcome of an upsert: a single status field. Kept distinct from
/// [`DeleteResponse`] because the two operations must not be
/// interchangeable at the type level.
#[derive(Debug, Clone, Copy, PartialEq, Eq, Structural)]
pub struct UpsertResponse {
    pub status: Status,
}

/// Outcome of a namespace deletion: a single status field.
#[derive(Debug, Clone, Copy, PartialEq, Eq, Structural)]
pub struct DeleteResponse {
    pub status: Status,
}

/// A vector's primary key: either a string or an integer. The two
/// variants are never coerced into each other; the string `"1"` and the
/// integer `1` are distinct identifiers.
#[derive(Debug, Clone)]
pub enum Id {
    String(String),
    Int(i32),
}

/// One query match. `vector` is present only when the request opted in
/// with `include_vectors`; `attributes` only when attributes were
/// requested and stored. An absent field stays absent: it is neither an
/// error nor an empty default. Attribute values are schema-less from
/// the client's point of view, so they stay as raw JSON.
#[derive(Debug, Clone)]
pub struct ResponseVector {
    pub dist: JsonNumber,
    pub id: Id,
    pub vector: Option<Vec<JsonNumber>>,
    pub attributes: Option<Vec<(String, JsonValue)>>,
}

/// Outcome of a query: the matches in the server's own ranking order,
/// never reordered by the client.
#[derive(Debug, Clone)]
pub struct QueryResponse {
    pub vectors: Vec<ResponseVector>,
}

/// The decimal digit character for `d` in `0..10`.
pub open spec fn digit_char(d: nat) -> char {
    if d == 0 {
        '0'
    } else if d == 1 {
        '1'
    } else if d == 2 {
        '2'
    } else if d == 3 {
        '3'
    } else if d == 4 {
        '4'
    } else if d == 5 {
        '5'
    } else if d == 6 {
        '6'
    } else if d == 7 {
        '7'
    } else if d == 8 {
        '8'
    } else {
        '9'
    }
}

/// The decimal digits of `n`, most significant first, with no leading
/// zero except for `n == 0` itself.
pub open spec fn dec_digits(n: nat) -> Seq<char>
    decreases n,
{
    if n < 10 {
        seq![digit_char(n)]
    } else {
        dec_digits(n / 10).push(digit_char(n % 10))
    }
}

/// The decimal rendering of an integer: a minus sign for negative
/// values, then the digits of the magnitude.
pub open spec fn dec_int(i: int) -> Seq<char> {
    if i < 0 {
        seq!['-'] + dec_digits((-i) as nat)
    } else {
        dec_digits(i as nat)
    }
}

/// The textual rendering of an identifier: the literal string value, or
/// the decimal digits of the integer value.
pub open spec fn id_text(id: Id) -> Seq<char> {
    match id {
        Id::String(s) => s@,
        Id::Int(i) => dec_int(i as int),
    }
}

fn digit_str(d: u32) -> (r: &'static str)
    requires
        d < 10,
    ensures
        r@ == seq![digit_char(d as nat)],
{
    proof {
        reveal_strlit("0");
        reveal_strlit("1");
        reveal_strlit("2");
        reveal_strlit("3");
        reveal_strlit("4");
        reveal_strlit("5");
        reveal_strlit("6");
        reveal_strlit("7");
        reveal_strlit("8");
        reveal_strlit("9");
    }
    if d == 0 {
        "0"
    } else if d == 1 {
        "1"
    } else if d == 2 {
        "2"
    } else if d == 3 {
        "3"
    } else if d == 4 {
        "4"
    } else if d == 5 {
        "5"
    } else if d == 6 {
        "6"
    } else if d == 7 {
        "7"
    } else if d == 8 {
        "8"
    } else {
        "9"
    }
}

fn dec_u32(n: u32) -> (r: String)
    ensures
        r@ == dec_digits(n as nat),
    decreases n,
{
    if n < 10 {
        digit_str(n).to_owned()
    } else {
        let mut s = dec_u32(n / 10);
        s.append(digit_str(n % 10));
        proof {
            assert(dec_digits((n / 10) as nat).push(digit_char((n % 10) as nat)) =~= dec_digits(
                (n / 10) as nat,
            ) + seq![digit_char((n % 10) as nat)]);
        }
        s
    }
}

impl Id {
    /// The textual rendering of this identifier; decoding is lossless
    /// for it: an integer renders as its decimal digits and a string
    /// renders as itself.
    pub fn render(&self) -> (r: String)
        ensures
            r@ == id_text(*self),
    {
        match self {
            Id::String(s) => s.clone(),
            Id::Int(i) => {
                if *i < 0 {
                    let m: u32 = (-(*i as i64)) as u32;
                    let mut s = "-".to_owned();
                    proof {
                        reveal_strlit("-");
                    }
                    let digits = dec_u32(m);
                    s.append(digits.as_str());
                    proof {
                        assert(seq!['-'] + dec_digits(m as nat) =~= "-"@ + dec_digits(m as nat));
                    }
                    s
                } else {
                    dec_u32(*i as u32)
                }
            },
        }
    }
}

} // verus!
