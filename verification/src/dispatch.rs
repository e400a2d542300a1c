use vstd::prelude::*;
use crate::endpoint::Endpoint;
use crate::error::{ErrorKind, TypedError, NO_STATUS};
use crate::gateway::{roas_url, status_url, validity_url, Shape};
use crate::json::JsonValue;
use crate::roa::{
    roa_payload_from_bytes,
    spec_parsed_of,
    spec_parsed_roa_json,
    spec_roa_decode,
    spec_roa_err,
};

verus! {

/// The four named operations a caller can invoke, with their bound
/// arguments. Arguments are free-form strings; none is checked locally.
pub enum Operation {
    Status,
    Validity { asn: String, prefix: String },
    Roas { asn: String },
    ParseRoaFile { path: String },
}

/// The one outside step an operation needs: a read request against the
/// upstream API, or a local file read. The caller performs it and hands
/// the outcome back to `fetch_result` or `finish_file`.
pub enum Action {
    HttpGet { url: String, shape: Shape },
    ReadFile { path: String },
}

/// Binds an operation's arguments to the step that serves it: the three
/// network operations become a request against their fixed path on the
/// endpoint, the identifiers passed through verbatim; the local operation
/// becomes a read of the named file.
pub fn plan(op: &Operation, ep: &Endpoint) -> (a: Action)
    ensures
        match op {
            Operation::Status => a matches Action::HttpGet { url, shape } && url@ == ep@
                + "/api/v1/status"@ && shape == Shape::Status,
            Operation::Validity { asn, prefix } => a matches Action::HttpGet { url, shape }
                && url@ == ep@ + "/api/v1/validity/"@ + asn@ + "/"@ + prefix@ && shape
                == Shape::Validity,
            Operation::Roas { asn } => a matches Action::HttpGet { url, shape } && url@ == ep@
                + "/json?select-asn="@ + asn@ && shape == Shape::Roas,
            Operation::ParseRoaFile { path } => a matches Action::ReadFile { path: p } && p@
                == path@,
        },
{
    match op {
        Operation::Status => Action::HttpGet { url: status_url(ep), shape: Shape::Status },
        Operation::Validity { asn, prefix } => Action::HttpGet {
            url: validity_url(ep, asn.as_str(), prefix.as_str()),
            shape: Shape::Validity,
        },
        Operation::Roas { asn } => Action::HttpGet {
            url: roas_url(ep, asn.as_str()),
            shape: Shape::Roas,
        },
        Operation::ParseRoaFile { path } => Action::ReadFile { path: path.clone() },
    }
}

/// What a local file read came to: the bytes, or the reported reason it
/// failed.
pub enum FileOutcome {
    Bytes(Vec<u8>),
    Failure(String),
}

/// Finishes the local parse operation: a read failure becomes an I/O error
/// under the sentinel code; bytes are decoded, and yield the parsed-object
/// payload or a decode error, exactly as the decoder accepts them.
pub fn finish_file(outcome: FileOutcome) -> (r: Result<JsonValue, TypedError>)
    ensures
        match outcome {
            FileOutcome::Bytes(b) => match spec_roa_decode(b@) {
                Some(raw) => r is Ok && r->Ok_0.deep_view() == spec_parsed_roa_json(
                    spec_parsed_of(raw),
                ),
                None => {
                    &&& r is Err
                    &&& r->Err_0.kind == ErrorKind::Decode
                    &&& r->Err_0.code == NO_STATUS
                    &&& r->Err_0.message@ == "Failed to decode file: "@ + spec_roa_err(b@)
                },
            },
            FileOutcome::Failure(m) => {
                &&& r is Err
                &&& r->Err_0.kind == ErrorKind::Io
                &&& r->Err_0.code == NO_STATUS
                &&& r->Err_0.message@ == "Failed to read file: "@ + m@
            },
        },
{
    match outcome {
        FileOutcome::Bytes(b) => roa_payload_from_bytes(b.as_slice()),
        FileOutcome::Failure(m) => Err(TypedError::io(m.as_str())),
    }
}

} // verus!
