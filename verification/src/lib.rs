//! Gateway and decode layer over an RPKI relying-party API.
//!
//! The crate exposes four operations: the upstream's status, the validity
//! of a route, the set of route origin authorizations of an origin, and
//! the local decode of a binary authorization object. It owns the request
//! construction, the classification of every outcome into one typed error
//! or a normalized JSON payload, the response schemas, and the
//! presentation of the decoded binary object. The network and the
//! filesystem stay with the caller: an operation is planned here, the
//! caller performs the one outside step, and its outcome is finished here.

pub mod dispatch;
pub mod endpoint;
pub mod error;
pub mod gateway;
pub mod json;
pub mod laws;
pub mod parse;
pub mod roa;
pub mod schema;
pub mod text;
