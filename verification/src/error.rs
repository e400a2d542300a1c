use vstd::prelude::*;
use vstd::string::StringExecFns;

verus! {

/// Where a failure was detected: bad input at startup, a transport that
/// never produced a response, an upstream response that was not a success,
/// a body or object that did not match its expected shape, or a local read
/// that failed.
#[derive(Clone, Copy, Debug, PartialEq, Eq, Structural)]
pub enum ErrorKind {
    Input,
    Network,
    Upstream,
    Decode,
    Io,
}

/// The sentinel code used where no HTTP status is available.
pub const NO_STATUS: i32 = -1;

/// The one error value a caller ever sees: its kind, a numeric code (an
/// HTTP status where one is available, the sentinel otherwise) and a
/// message.
pub struct TypedError {
    pub kind: ErrorKind,
    pub code: i32,
    pub message: String,
}

impl TypedError {
    /// A local read failure: sentinel code, the reported reason behind a
    /// fixed prefix.
    pub fn io(message: &str) -> (r: TypedError)
        ensures
            r.kind == ErrorKind::Io,
            r.code == NO_STATUS,
            r.message@ == "Failed to read file: "@ + message@,
    {
        let mut m = "Failed to read file: ".to_owned();
        m.append(message);
        TypedError { kind: ErrorKind::Io, code: NO_STATUS, message: m }
    }
}

} // verus!
