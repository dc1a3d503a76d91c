use vstd::prelude::*;
use vstd::string::StringExecFns;
use crate::errors::{Error, starts_with};
use crate::json::Json;

verus! {

broadcast use vstd::string::group_string_axioms;

/// The document a response body denotes, if the body is valid JSON: what
/// `serde_json` parses, a function of the text alone.
pub uninterp spec fn json_of(s: Seq<char>) -> Option<Json>;

#[verifier::external_type_specification]
#[verifier::external_body]
pub struct ExValue(serde_json::Value);

/// Relies on serde_json::Value's variants alone: each is carried over one to
/// one; a number outside the unsigned 64-bit range is kept opaquely.
#[verifier::external_body]
fn json_from_value(v: &serde_json::Value) -> Json {
    match v {
        serde_json::Value::Null => Json::Null,
        serde_json::Value::Bool(b) => Json::Bool(*b),
        serde_json::Value::Number(n) => match n.as_u64() {
            Some(u) => Json::UInt(u as u128),
            None => Json::NumOther,
        },
        serde_json::Value::String(s) => Json::Str(s.clone()),
        serde_json::Value::Array(items) => Json::Arr(items.iter().map(json_from_value).collect()),
        serde_json::Value::Object(entries) => Json::Obj(
            entries.iter().map(|(k, x)| (k.clone(), json_from_value(x))).collect(),
        ),
    }
}

/// Relies on serde_json::from_str: whether a text parses, and the document it
/// denotes, depend on the text alone.
#[verifier::external_body]
fn parse_json_text(s: &str) -> (r: Result<Json, String>)
    ensures
        r is Ok <==> json_of(s@) is Some,
        r matches Ok(j) ==> json_of(s@) == Some(j),
{
    match serde_json::from_str::<serde_json::Value>(s) {
        Ok(v) => Ok(json_from_value(&v)),
        Err(e) => Err(format!("{e}")),
    }
}

/// Parses an HTTP response body into a document. A body that is not valid
/// JSON fails with the decode prefix under which the client's GET reports it.
pub fn parse_response_body(body: &str) -> (r: Result<Json, Error>)
    ensures
        r is Ok <==> json_of(body@) is Some,
        r matches Ok(j) ==> json_of(body@) == Some(j),
        r matches Err(e) ==> starts_with(e@, "client@get->response.into_json(): "@),
{
    match parse_json_text(body) {
        Ok(j) => Ok(j),
        Err(detail) => {
            let e = Error::with_detail("client@get->response.into_json(): ", detail.as_str());
            proof {
                assert(e@.take("client@get->response.into_json(): "@.len() as int)
                    =~= "client@get->response.into_json(): "@);
            }
            Err(e)
        },
    }
}

/// A transport failure of the client's GET, under the exact prefix the
/// error contract names, with the transport's own words as the detail.
pub fn transport_error(detail: &str) -> (r: Error)
    ensures
        r@ == "client@get->request.call(): "@ + detail@,
        starts_with(r@, "client@get->request.call(): "@),
{
    let e = Error::with_detail("client@get->request.call(): ", detail);
    proof {
        assert(e@.take("client@get->request.call(): "@.len() as int)
            =~= "client@get->request.call(): "@);
    }
    e
}

/// The upstream production host: every request's URL is this base, which
/// ends in a slash, followed by the endpoint's path.
pub fn default_host() -> (r: String)
    ensures
        r@ == "https://prices.runescape.wiki/api/v1/osrs/"@,
{
    String::from_str("https://prices.runescape.wiki/api/v1/osrs/")
}

/// The URL of a request: the base host followed by the path.
pub fn request_target(host: &str, path: &str) -> (r: String)
    ensures
        r@ == host@ + path@,
{
    let mut s = String::from_str(host);
    s.append(path);
    s
}

} // verus!
