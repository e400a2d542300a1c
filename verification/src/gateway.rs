use vstd::prelude::*;
use vstd::string::StringExecFns;
use crate::endpoint::Endpoint;
use crate::error::{ErrorKind, TypedError, NO_STATUS};
use crate::json::{JsonV, JsonValue};
use crate::parse::{json_parse, parse_json_text};
use crate::schema::{
    decode_fetched_roas,
    decode_status,
    decode_validity_result,
    fetched_roas_to_json,
    spec_decode_fetched_roas,
    spec_decode_status,
    spec_decode_validity_result,
    spec_fetched_roas_json,
    spec_status_json,
    spec_validity_result_json,
    status_to_json,
    validity_result_to_json,
};

verus! {

/// The three response shapes the gateway can be asked to read a body into.
#[derive(Clone, Copy, Debug, PartialEq, Eq, Structural)]
pub enum Shape {
    Status,
    Validity,
    Roas,
}

/// What one outbound request came to, as plain values: either the
/// transport failed before any response (with a status only where the
/// transport reported one), or a response arrived, whose body text may
/// itself have been unreadable.
pub enum HttpOutcome {
    Failure { status: Option<u16>, message: String },
    Response { status: u16, body: Option<String> },
}

/// A status is a success exactly when it lies in the 2xx range.
pub open spec fn spec_is_success(status: u16) -> bool {
    200 <= status < 300
}

/// Decode into the asked-for shape, then re-serialize under the stable
/// field names: the normalization every success body goes through.
pub open spec fn spec_normalized(shape: Shape, j: JsonV) -> Option<JsonV> {
    match shape {
        Shape::Status => match spec_decode_status(j) {
            Some(v) => Some(spec_status_json(v)),
            None => None,
        },
        Shape::Validity => match spec_decode_validity_result(j) {
            Some(v) => Some(spec_validity_result_json(v)),
            None => None,
        },
        Shape::Roas => match spec_decode_fetched_roas(j) {
            Some(v) => Some(spec_fetched_roas_json(v)),
            None => None,
        },
    }
}

/// What a success body text comes to: parsed, decoded and normalized, or
/// nothing at the first step that fails.
pub open spec fn spec_body_payload(shape: Shape, body: Seq<char>) -> Option<JsonV> {
    match json_parse(body) {
        Some(j) => spec_normalized(shape, j),
        None => None,
    }
}

/// Brings a parsed body into the asked-for shape and re-serializes it.
pub fn normalize_body(shape: &Shape, j: &JsonValue) -> (r: Option<JsonValue>)
    ensures
        match r {
            Some(v) => spec_normalized(*shape, j.deep_view()) == Some(v.deep_view()),
            None => spec_normalized(*shape, j.deep_view()) is None,
        },
{
    match shape {
        Shape::Status => match decode_status(j) {
            Some(v) => Some(status_to_json(&v)),
            None => None,
        },
        Shape::Validity => match decode_validity_result(j) {
            Some(v) => Some(validity_result_to_json(&v)),
            None => None,
        },
        Shape::Roas => match decode_fetched_roas(j) {
            Some(v) => Some(fetched_roas_to_json(&v)),
            None => None,
        },
    }
}

/// The code reported for a transport failure: the transport-reported
/// status where there is one, the sentinel otherwise.
pub open spec fn spec_failure_code(status: Option<u16>) -> int {
    match status {
        Some(s) => s as int,
        None => NO_STATUS as int,
    }
}

/// The message reported for a non-success response: its body text, or a
/// placeholder where the body could not be read.
pub open spec fn spec_upstream_message(body: Option<String>) -> Seq<char> {
    match body {
        Some(b) => b@,
        None => "Unknown error"@,
    }
}

/// Classifies the outcome of one read request and decodes its body:
/// transport failures become network errors under the transport's code or
/// the sentinel; non-success responses become upstream errors carrying the
/// status and the body text; a success response whose body cannot be read,
/// is not JSON, or does not match the asked-for shape becomes a decode
/// error carrying the status; and a success body that decodes is returned
/// as the normalized payload. Exactly one of these happens, for every
/// outcome.
pub fn fetch_result(shape: &Shape, outcome: HttpOutcome) -> (r: Result<JsonValue, TypedError>)
    ensures
        match outcome {
            HttpOutcome::Failure { status, message } => {
                &&& r is Err
                &&& r->Err_0.kind == ErrorKind::Network
                &&& r->Err_0.code == spec_failure_code(status)
                &&& r->Err_0.message@ == "Request failed: "@ + message@
            },
            HttpOutcome::Response { status, body } => {
                if !spec_is_success(status) {
                    &&& r is Err
                    &&& r->Err_0.kind == ErrorKind::Upstream
                    &&& r->Err_0.code == status as int
                    &&& r->Err_0.message@ == spec_upstream_message(body)
                } else {
                    match body {
                        None => {
                            &&& r is Err
                            &&& r->Err_0.kind == ErrorKind::Decode
                            &&& r->Err_0.code == status as int
                            &&& r->Err_0.message@ == "Failed to read response body"@
                        },
                        Some(b) => match spec_body_payload(*shape, b@) {
                            Some(p) => r is Ok && r->Ok_0.deep_view() == p,
                            None => {
                                &&& r is Err
                                &&& r->Err_0.kind == ErrorKind::Decode
                                &&& r->Err_0.code == status as int
                                &&& r->Err_0.message@ == "Failed to decode response body"@
                            },
                        },
                    }
                }
            },
        },
{
    match outcome {
        HttpOutcome::Failure { status, message } => {
            let code: i32 = match status {
                Some(s) => s as i32,
                None => NO_STATUS,
            };
            let mut m = "Request failed: ".to_owned();
            m.append(message.as_str());
            Err(TypedError { kind: ErrorKind::Network, code, message: m })
        },
        HttpOutcome::Response { status, body } => {
            if !(200 <= status && status < 300) {
                let text = match body {
                    Some(b) => b,
                    None => "Unknown error".to_owned(),
                };
                Err(TypedError { kind: ErrorKind::Upstream, code: status as i32, message: text })
            } else {
                match body {
                    None => Err(
                        TypedError {
                            kind: ErrorKind::Decode,
                            code: status as i32,
                            message: "Failed to read response body".to_owned(),
                        },
                    ),
                    Some(b) => {
                        let decoded = match parse_json_text(b.as_str()) {
                            Some(j) => normalize_body(shape, &j),
                            None => None,
                        };
                        match decoded {
                            Some(p) => Ok(p),
                            None => Err(
                                TypedError {
                                    kind: ErrorKind::Decode,
                                    code: status as i32,
                                    message: "Failed to decode response body".to_owned(),
                                },
                            ),
                        }
                    },
                }
            }
        },
    }
}

/// The URL of the status query: the endpoint followed by the fixed path.
pub fn status_url(ep: &Endpoint) -> (u: String)
    ensures
        u@ == ep@ + "/api/v1/status"@,
{
    let mut u = ep.as_str().to_owned();
    u.append("/api/v1/status");
    u
}

/// The URL of the validity query: endpoint, fixed path, then the origin
/// and the prefix, both passed through verbatim.
pub fn validity_url(ep: &Endpoint, asn: &str, prefix: &str) -> (u: String)
    ensures
        u@ == ep@ + "/api/v1/validity/"@ + asn@ + "/"@ + prefix@,
{
    let mut u = ep.as_str().to_owned();
    u.append("/api/v1/validity/");
    u.append(asn);
    u.append("/");
    u.append(prefix);
    u
}

/// The URL of the ROA-set query: endpoint, fixed path, then the origin,
/// passed through verbatim.
pub fn roas_url(ep: &Endpoint, asn: &str) -> (u: String)
    ensures
        u@ == ep@ + "/json?select-asn="@ + asn@,
{
    let mut u = ep.as_str().to_owned();
    u.append("/json?select-asn=");
    u.append(asn);
    u
}

} // verus!
