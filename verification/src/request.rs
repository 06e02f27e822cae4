//! The computable side of request construction: the endpoint URLs and
//! header values each operation sends. The transport that carries them
//! is an external collaborator and stays outside this crate.

use vstd::prelude::*;
use vstd::string::StringExecFns;

verus! {

/// The fixed base endpoint of the remote service.
pub const BASE_URL: &'static str = "https://api.turbopuffer.com/v1";

/// The URL addressed by upsert (POST) and by namespace deletion
/// (DELETE): `{base}/vectors/{namespace}`.
pub fn vectors_url(namespace: &str) -> (r: String)
    ensures
        r@ == BASE_URL@ + "/vectors/"@ + namespace@,
{
    let s = BASE_URL.to_owned();
    let s = s.concat("/vectors/");
    let s = s.concat(namespace);
    s
}

/// The URL addressed by a query (POST):
/// `{base}/vectors/{namespace}/query`.
pub fn query_url(namespace: &str) -> (r: String)
    ensures
        r@ == BASE_URL@ + "/vectors/"@ + namespace@ + "/query"@,
{
    let s = vectors_url(namespace);
    let s = s.concat("/query");
    s
}

/// The value of the `Authorization` header every request carries:
/// `Bearer {api_key}`.
pub fn bearer_value(api_key: &str) -> (r: String)
    ensures
        r@ == "Bearer "@ + api_key@,
{
    let s = "Bearer ".to_owned();
    let s = s.concat(api_key);
    s
}

} // verus!
