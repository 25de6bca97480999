//! Errors reported by the clients.

use vstd::prelude::*;

verus! {

/// Declares `ureq::Error`, the transport's failure (DNS, connection, TLS,
/// protocol, timeout), carried unopened in [`EnphaseError::Http`].
#[verifier::external_type_specification]
#[verifier::external_body]
pub struct ExTransportError(ureq::Error);

/// Declares `std::io::Error`, carried unopened in [`EnphaseError::IoError`].
#[verifier::external_type_specification]
#[verifier::external_body]
pub struct ExIoError(std::io::Error);

/// Declares `serde_json::Error`, carried unopened in [`EnphaseError::JsonError`].
#[verifier::external_type_specification]
#[verifier::external_body]
pub struct ExJsonError(serde_json::Error);

/// Error kinds of the cloud and gateway clients.
#[derive(Debug)]
pub enum EnphaseError {
    /// The HTTP exchange itself failed.
    Http(ureq::Error),
    /// A response did not have the expected shape.
    InvalidResponse(String),
    /// The gateway rejected the bearer token.
    AuthenticationFailed(String),
    /// Required configuration was absent.
    ConfigurationError(String),
    /// Local I/O failed.
    IoError(std::io::Error),
    /// A response body was not the expected JSON.
    JsonError(serde_json::Error),
}

impl From<ureq::Error> for EnphaseError {
    fn from(e: ureq::Error) -> (r: EnphaseError)
        ensures
            r == EnphaseError::Http(e),
    {
        EnphaseError::Http(e)
    }
}

impl vstd::std_specs::convert::FromSpecImpl<ureq::Error> for EnphaseError {
    open spec fn obeys_from_spec() -> bool {
        true
    }

    open spec fn from_spec(e: ureq::Error) -> EnphaseError {
        EnphaseError::Http(e)
    }
}

impl From<std::io::Error> for EnphaseError {
    fn from(e: std::io::Error) -> (r: EnphaseError)
        ensures
            r == EnphaseError::IoError(e),
    {
        EnphaseError::IoError(e)
    }
}

impl vstd::std_specs::convert::FromSpecImpl<std::io::Error> for EnphaseError {
    open spec fn obeys_from_spec() -> bool {
        true
    }

    open spec fn from_spec(e: std::io::Error) -> EnphaseError {
        EnphaseError::IoError(e)
    }
}

impl From<serde_json::Error> for EnphaseError {
    fn from(e: serde_json::Error) -> (r: EnphaseError)
        ensures
            r == EnphaseError::JsonError(e),
    {
        EnphaseError::JsonError(e)
    }
}

impl vstd::std_specs::convert::FromSpecImpl<serde_json::Error> for EnphaseError {
    open spec fn obeys_from_spec() -> bool {
        true
    }

    open spec fn from_spec(e: serde_json::Error) -> EnphaseError {
        EnphaseError::JsonError(e)
    }
}

/// Result of a client operation.
pub type Result<T> = core::result::Result<T, EnphaseError>;

} // verus!
