use turbopuffer_client::error::{invalid_response, non_json, request_error, Error};
use turbopuffer_client::json::{parse_json, JsonNumber, JsonValue};
use turbopuffer_client::request::{bearer_value, query_url, vectors_url};
use turbopuffer_client::response::Id;

#[test]
fn parse_json_reads_scalars() {
    assert!(matches!(parse_json("null"), Some(JsonValue::Null)));
    assert!(matches!(parse_json("true"), Some(JsonValue::Bool(true))));
    assert!(matches!(parse_json("-3"), Some(JsonValue::Num(JsonNumber::Int(-3)))));
    assert!(matches!(
        parse_json("18446744073709551615"),
        Some(JsonValue::Num(JsonNumber::UInt(18446744073709551615)))
    ));
    assert!(matches!(
        parse_json("1.5"),
        Some(JsonValue::Num(JsonNumber::Float(bits))) if bits == 1.5f64.to_bits()
    ));
    assert!(matches!(parse_json("\"ok\""), Some(JsonValue::Str(s)) if s == "ok"));
}

#[test]
fn parse_json_reads_composites() {
    match parse_json("[1,2]") {
        Some(JsonValue::Array(elems)) => {
            assert_eq!(elems.len(), 2);
            assert!(matches!(elems[0], JsonValue::Num(JsonNumber::Int(1))));
            assert!(matches!(elems[1], JsonValue::Num(JsonNumber::Int(2))));
        }
        _ => panic!("expected a two-element array"),
    }
    match parse_json("{\"a\":[true]}") {
        Some(JsonValue::Object(entries)) => {
            assert_eq!(entries.len(), 1);
            assert_eq!(entries[0].0, "a");
            assert!(matches!(&entries[0].1, JsonValue::Array(inner)
                if matches!(inner[0], JsonValue::Bool(true))));
        }
        _ => panic!("expected a one-entry object"),
    }
}

#[test]
fn parse_json_rejects_malformed_text() {
    assert!(parse_json("").is_none());
    assert!(parse_json("{").is_none());
    assert!(parse_json("[1,]").is_none());
    assert!(parse_json("'single'").is_none());
}

#[test]
fn id_renders_its_own_value() {
    assert_eq!(Id::Int(7).render(), "7");
    assert_eq!(Id::String("abc".to_string()).render(), "abc");
    assert_eq!(Id::Int(0).render(), "0");
    assert_eq!(Id::Int(-42).render(), "-42");
    assert_eq!(Id::Int(2147483647).render(), "2147483647");
    assert_eq!(Id::Int(-2147483648).render(), "-2147483648");
    // No coercion between the variants: "1" and 1 render alike but are
    // different identifiers.
    assert!(matches!(Id::String("1".to_string()), Id::String(_)));
    assert_eq!(Id::String("1".to_string()).render(), Id::Int(1).render());
}

#[test]
fn error_constructors_build_their_kind() {
    assert!(matches!(
        request_error("connection reset".to_string()),
        Error::RequestError(m) if m == "connection reset"
    ));
    assert!(matches!(
        non_json("<html></html>".to_string()),
        Error::NonJsonResponse(b) if b == "<html></html>"
    ));
    assert!(matches!(
        invalid_response(JsonValue::Null),
        Error::InvalidResponse(JsonValue::Null)
    ));
    // Errors stay cloneable for logging.
    let e = invalid_response(JsonValue::Bool(false));
    let e2 = e.clone();
    assert!(matches!(e2, Error::InvalidResponse(JsonValue::Bool(false))));
}

#[test]
fn request_parts_are_exact() {
    assert_eq!(
        vectors_url("test-upsert"),
        "https://api.turbopuffer.com/v1/vectors/test-upsert"
    );
    assert_eq!(
        query_url("test-for-query"),
        "https://api.turbopuffer.com/v1/vectors/test-for-query/query"
    );
    assert_eq!(bearer_value("secret"), "Bearer secret");
}
