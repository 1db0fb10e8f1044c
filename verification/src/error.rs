//! The errors that an operation can end in.

use crate::api::ErrorResponse;
use vstd::prelude::*;

verus! {

/// `ureq::Transport`: why a request did not get through. It is carried, never
/// looked into.
#[verifier::external_type_specification]
#[verifier::external_body]
pub struct ExTransport(ureq::Transport);

/// `std::io::Error`: why a body could not be had or read. It is carried, never
/// looked into.
#[verifier::external_type_specification]
#[verifier::external_body]
pub struct ExIoError(std::io::Error);

/// Why an operation failed. Callers branch on the kind; what a kind wraps is
/// the underlying error as it came.
#[derive(Debug)]
pub enum Error {
    /// The service answered with an error of its own.
    Api(ErrorResponse),
    /// The request did not get through, or no response came back.
    HttpTransport(ureq::Transport),
    /// The body of the response could not be read as what was expected.
    Json(std::io::Error),
    /// The base endpoint and the resource path do not make a URL.
    Url(url::ParseError),
}

/// The I/O error that stands for a JSON document of an unexpected shape.
///
/// Trusted: this is `std::io::Error::new` with the kind `InvalidData`.
/// Nothing is claimed of the result.
#[verifier::external_body]
pub(crate) fn invalid_data(message: &str) -> std::io::Error {
    std::io::Error::new(std::io::ErrorKind::InvalidData, message.to_owned())
}

} // verus!
