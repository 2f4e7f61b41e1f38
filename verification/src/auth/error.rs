//! The errors of authentication and of the token exchange.
use vstd::prelude::*;

verus! {

/// `std::io::Error`, carried through as it is.
#[verifier::external_type_specification]
#[verifier::external_body]
pub struct ExIoError(std::io::Error);

/// `std::time::SystemTimeError`, carried through as it is.
#[verifier::external_type_specification]
#[verifier::external_body]
pub struct ExSystemTimeError(std::time::SystemTimeError);

/// `serde_json::Error`, carried through as it is.
#[verifier::external_type_specification]
#[verifier::external_body]
pub struct ExJsonError(serde_json::Error);

/// `jsonwebtoken::errors::Error`, carried through as it is.
#[verifier::external_type_specification]
#[verifier::external_body]
pub struct ExJwtLibError(jsonwebtoken::errors::Error);

/// `tonic::transport::Error`, carried through as it is.
#[verifier::external_type_specification]
#[verifier::external_body]
pub struct ExTransportError(tonic::transport::Error);

/// `hyper_util::client::legacy::Error`, carried through as it is.
#[verifier::external_type_specification]
#[verifier::external_body]
pub struct ExHyperClientError(hyper_util::client::legacy::Error);

/// `hyper::Error`, carried through as it is.
#[verifier::external_type_specification]
#[verifier::external_body]
pub struct ExHyperError(hyper::Error);

/// `hyper::http::Error`, carried through as it is.
#[verifier::external_type_specification]
#[verifier::external_body]
pub struct ExHttpError(hyper::http::Error);

/// Failures while talking to the token endpoints.
#[derive(Debug)]
pub enum NetConnError {
    UnexpectedResponse(String),
    InvalidChunk(String),
    Io(std::io::Error),
    Des(serde_json::Error),
    Jwt(JwtError),
    Transport(tonic::transport::Error),
    InvalidUri(String),
    HyperClient(hyper_util::client::legacy::Error),
    Hyper(hyper::Error),
    Http(hyper::http::Error),
    /// A workload identity configuration names neither a file nor a URL for its subject token,
    /// or the file it names does not exist.
    MissingCredentialSource,
    /// An HTTP response carried this non-success status code.
    Status(u16),
}

/// Failures while loading an account file.
#[derive(Debug)]
pub enum UacError {
    Io(String, std::io::Error),
    Des(serde_json::Error),
}

/// Failures while creating a signed token.
#[derive(Debug)]
pub enum JwtError {
    Time(std::time::SystemTimeError),
    Jwt(jsonwebtoken::errors::Error),
    Des(serde_json::Error),
}

impl From<std::io::Error> for NetConnError {
    fn from(e: std::io::Error) -> (r: Self)
        ensures
            r == NetConnError::Io(e),
    {
        NetConnError::Io(e)
    }
}

impl vstd::std_specs::convert::FromSpecImpl<std::io::Error> for NetConnError {
    open spec fn obeys_from_spec() -> bool {
        true
    }

    open spec fn from_spec(e: std::io::Error) -> NetConnError {
        NetConnError::Io(e)
    }
}

impl From<serde_json::Error> for NetConnError {
    fn from(e: serde_json::Error) -> (r: Self)
        ensures
            r == NetConnError::Des(e),
    {
        NetConnError::Des(e)
    }
}

impl vstd::std_specs::convert::FromSpecImpl<serde_json::Error> for NetConnError {
    open spec fn obeys_from_spec() -> bool {
        true
    }

    open spec fn from_spec(e: serde_json::Error) -> NetConnError {
        NetConnError::Des(e)
    }
}

impl From<JwtError> for NetConnError {
    fn from(e: JwtError) -> (r: Self)
        ensures
            r == NetConnError::Jwt(e),
    {
        NetConnError::Jwt(e)
    }
}

impl vstd::std_specs::convert::FromSpecImpl<JwtError> for NetConnError {
    open spec fn obeys_from_spec() -> bool {
        true
    }

    open spec fn from_spec(e: JwtError) -> NetConnError {
        NetConnError::Jwt(e)
    }
}

impl From<tonic::transport::Error> for NetConnError {
    fn from(e: tonic::transport::Error) -> (r: Self)
        ensures
            r == NetConnError::Transport(e),
    {
        NetConnError::Transport(e)
    }
}

impl vstd::std_specs::convert::FromSpecImpl<tonic::transport::Error> for NetConnError {
    open spec fn obeys_from_spec() -> bool {
        true
    }

    open spec fn from_spec(e: tonic::transport::Error) -> NetConnError {
        NetConnError::Transport(e)
    }
}

impl From<hyper_util::client::legacy::Error> for NetConnError {
    fn from(e: hyper_util::client::legacy::Error) -> (r: Self)
        ensures
            r == NetConnError::HyperClient(e),
    {
        NetConnError::HyperClient(e)
    }
}

impl vstd::std_specs::convert::FromSpecImpl<hyper_util::client::legacy::Error> for NetConnError {
    open spec fn obeys_from_spec() -> bool {
        true
    }

    open spec fn from_spec(e: hyper_util::client::legacy::Error) -> NetConnError {
        NetConnError::HyperClient(e)
    }
}

impl From<hyper::Error> for NetConnError {
    fn from(e: hyper::Error) -> (r: Self)
        ensures
            r == NetConnError::Hyper(e),
    {
        NetConnError::Hyper(e)
    }
}

impl vstd::std_specs::convert::FromSpecImpl<hyper::Error> for NetConnError {
    open spec fn obeys_from_spec() -> bool {
        true
    }

    open spec fn from_spec(e: hyper::Error) -> NetConnError {
        NetConnError::Hyper(e)
    }
}

impl From<hyper::http::Error> for NetConnError {
    fn from(e: hyper::http::Error) -> (r: Self)
        ensures
            r == NetConnError::Http(e),
    {
        NetConnError::Http(e)
    }
}

impl vstd::std_specs::convert::FromSpecImpl<hyper::http::Error> for NetConnError {
    open spec fn obeys_from_spec() -> bool {
        true
    }

    open spec fn from_spec(e: hyper::http::Error) -> NetConnError {
        NetConnError::Http(e)
    }
}

impl From<serde_json::Error> for UacError {
    fn from(e: serde_json::Error) -> (r: Self)
        ensures
            r == UacError::Des(e),
    {
        UacError::Des(e)
    }
}

impl vstd::std_specs::convert::FromSpecImpl<serde_json::Error> for UacError {
    open spec fn obeys_from_spec() -> bool {
        true
    }

    open spec fn from_spec(e: serde_json::Error) -> UacError {
        UacError::Des(e)
    }
}

impl From<std::time::SystemTimeError> for JwtError {
    fn from(e: std::time::SystemTimeError) -> (r: Self)
        ensures
            r == JwtError::Time(e),
    {
        JwtError::Time(e)
    }
}

impl vstd::std_specs::convert::FromSpecImpl<std::time::SystemTimeError> for JwtError {
    open spec fn obeys_from_spec() -> bool {
        true
    }

    open spec fn from_spec(e: std::time::SystemTimeError) -> JwtError {
        JwtError::Time(e)
    }
}

impl From<jsonwebtoken::errors::Error> for JwtError {
    fn from(e: jsonwebtoken::errors::Error) -> (r: Self)
        ensures
            r == JwtError::Jwt(e),
    {
        JwtError::Jwt(e)
    }
}

impl vstd::std_specs::convert::FromSpecImpl<jsonwebtoken::errors::Error> for JwtError {
    open spec fn obeys_from_spec() -> bool {
        true
    }

    open spec fn from_spec(e: jsonwebtoken::errors::Error) -> JwtError {
        JwtError::Jwt(e)
    }
}

impl From<serde_json::Error> for JwtError {
    fn from(e: serde_json::Error) -> (r: Self)
        ensures
            r == JwtError::Des(e),
    {
        JwtError::Des(e)
    }
}

impl vstd::std_specs::convert::FromSpecImpl<serde_json::Error> for JwtError {
    open spec fn obeys_from_spec() -> bool {
        true
    }

    open spec fn from_spec(e: serde_json::Error) -> JwtError {
        JwtError::Des(e)
    }
}

} // verus!
