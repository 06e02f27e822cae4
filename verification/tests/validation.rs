use turbopuffer_client::error::Error;
use turbopuffer_client::json::{JsonNumber, JsonValue};
use turbopuffer_client::response::{Id, Status};
use turbopuffer_client::validate::{validate_delete, validate_query, validate_upsert};

#[test]
fn status_accepts_all_three_casings() {
    for token in ["ok", "OK", "Ok"] {
        let body = format!("{{\"status\":\"{}\"}}", token);
        let res = validate_upsert(body).unwrap();
        assert!(matches!(res.status, Status::Success));
        let body = format!("{{\"status\":\"{}\"}}", token);
        let res = validate_delete(body).unwrap();
        assert!(matches!(res.status, Status::Success));
    }
}

#[test]
fn status_rejects_other_tokens() {
    for token in ["okay", "oK", "OK ", "", "Okk"] {
        let body = format!("{{\"status\":\"{}\"}}", token);
        let res = validate_upsert(body);
        assert!(matches!(res, Err(Error::InvalidResponse(_))));
    }
    // A non-string status is a structural failure too.
    let res = validate_upsert("{\"status\":1}".to_string());
    assert!(matches!(res, Err(Error::InvalidResponse(_))));
}

#[test]
fn non_json_body_is_stage_one_failure() {
    for body in ["", "<html>bad gateway</html>", "not json", "{\"status\":"] {
        let res = validate_upsert(body.to_string());
        match res {
            Err(Error::NonJsonResponse(b)) => assert_eq!(b, body),
            _ => panic!("expected NonJsonResponse"),
        }
    }
}

#[test]
fn missing_required_field_is_stage_two_failure_carrying_value() {
    let res = validate_upsert("{}".to_string());
    match res {
        Err(Error::InvalidResponse(JsonValue::Object(entries))) => {
            assert!(entries.is_empty());
        }
        _ => panic!("expected InvalidResponse with the empty object"),
    }
    // The retained value is the document exactly as received.
    let res = validate_delete("{\"state\":\"ok\"}".to_string());
    match res {
        Err(Error::InvalidResponse(JsonValue::Object(entries))) => {
            assert_eq!(entries.len(), 1);
            assert_eq!(entries[0].0, "state");
        }
        _ => panic!("expected InvalidResponse with the original object"),
    }
}

#[test]
fn upsert_ignores_extra_fields() {
    let res = validate_upsert("{\"extra\":[1,2],\"status\":\"OK\"}".to_string()).unwrap();
    assert!(matches!(res.status, Status::Success));
}

#[test]
fn query_decodes_bare_array_preserving_order() {
    let body = "[{\"dist\":0.1,\"id\":1},{\"dist\":0.2,\"id\":2},{\"dist\":0.3,\"id\":\"x\"}]";
    let res = validate_query(body.to_string()).unwrap();
    assert_eq!(res.vectors.len(), 3);
    assert!(matches!(res.vectors[0].id, Id::Int(1)));
    assert!(matches!(res.vectors[1].id, Id::Int(2)));
    assert!(matches!(&res.vectors[2].id, Id::String(s) if s == "x"));
}

#[test]
fn query_rejects_non_array_and_bad_elements() {
    let res = validate_query("{\"vectors\":[]}".to_string());
    assert!(matches!(res, Err(Error::InvalidResponse(JsonValue::Object(_)))));
    // One bad element poisons the whole document, which is kept intact.
    let body = "[{\"dist\":0.1,\"id\":1},{\"id\":2}]";
    let res = validate_query(body.to_string());
    match res {
        Err(Error::InvalidResponse(JsonValue::Array(elems))) => assert_eq!(elems.len(), 2),
        _ => panic!("expected InvalidResponse with the original array"),
    }
}

#[test]
fn optional_fields_stay_absent() {
    let res = validate_query("[{\"dist\":1,\"id\":7}]".to_string()).unwrap();
    assert_eq!(res.vectors.len(), 1);
    assert!(res.vectors[0].vector.is_none());
    assert!(res.vectors[0].attributes.is_none());
    // An explicit null also decodes to the field being absent.
    let res = validate_query("[{\"dist\":1,\"id\":7,\"vector\":null,\"attributes\":null}]".to_string())
        .unwrap();
    assert!(res.vectors[0].vector.is_none());
    assert!(res.vectors[0].attributes.is_none());
}

#[test]
fn present_optional_fields_are_decoded() {
    let body = "[{\"dist\":0.5,\"id\":3,\"vector\":[0.25,2,-1],\"attributes\":{\"color\":\"red\"}}]";
    let res = validate_query(body.to_string()).unwrap();
    let v = res.vectors[0].vector.as_ref().expect("vector present");
    assert_eq!(v.len(), 3);
    assert!(matches!(v[0], JsonNumber::Float(bits) if bits == 0.25f64.to_bits()));
    assert!(matches!(v[1], JsonNumber::Int(2)));
    assert!(matches!(v[2], JsonNumber::Int(-1)));
    let attrs = res.vectors[0].attributes.as_ref().expect("attributes present");
    assert_eq!(attrs.len(), 1);
    assert_eq!(attrs[0].0, "color");
    assert!(matches!(&attrs[0].1, JsonValue::Str(s) if s == "red"));
}

#[test]
fn query_element_with_bad_optional_shape_fails() {
    // A vector field that is neither absent, null nor an array of
    // numbers is a structural failure.
    let res = validate_query("[{\"dist\":1,\"id\":7,\"vector\":\"abc\"}]".to_string());
    assert!(matches!(res, Err(Error::InvalidResponse(_))));
    let res = validate_query("[{\"dist\":1,\"id\":7,\"vector\":[1,\"x\"]}]".to_string());
    assert!(matches!(res, Err(Error::InvalidResponse(_))));
    let res = validate_query("[{\"dist\":1,\"id\":7,\"attributes\":[1]}]".to_string());
    assert!(matches!(res, Err(Error::InvalidResponse(_))));
}

#[test]
fn id_out_of_integer_range_fails() {
    let res = validate_query("[{\"dist\":1,\"id\":2147483648}]".to_string());
    assert!(matches!(res, Err(Error::InvalidResponse(_))));
    let res = validate_query("[{\"dist\":1,\"id\":-2147483649}]".to_string());
    assert!(matches!(res, Err(Error::InvalidResponse(_))));
    let res = validate_query("[{\"dist\":1,\"id\":-2147483648}]".to_string()).unwrap();
    assert!(matches!(res.vectors[0].id, Id::Int(-2147483648)));
}

#[test]
fn scenario_upsert_query_delete() {
    // The canonical exchange, replayed over canned response bodies:
    // an upsert acknowledged with one casing, a one-match query whose
    // identifier is the integer 1, and a delete acknowledged with
    // another casing.
    let res = validate_upsert("{\"status\":\"OK\"}".to_string()).unwrap();
    assert!(matches!(res.status, Status::Success));
    let query_body = "[{\"dist\":0.0025,\"id\":1,\"vector\":[0.1,0.1]}]";
    let res = validate_query(query_body.to_string()).unwrap();
    assert_eq!(res.vectors.len(), 1);
    assert!(matches!(res.vectors[0].id, Id::Int(1)));
    let res = validate_delete("{\"status\":\"ok\"}".to_string()).unwrap();
    assert!(matches!(res.status, Status::Success));
    // A query after the delete may fail; whatever comes back is
    // surfaced as classified, never masked.
    let res = validate_query("{\"error\":\"namespace not found\"}".to_string());
    assert!(matches!(res, Err(Error::InvalidResponse(_))));
}
