//! Errors of the native backends.

use vstd::prelude::*;
use vstd::std_specs::convert::FromSpecImpl;

use super::tor;

verus! {

/// `std::io::Error`, carried through as an opaque value.
#[verifier::external_type_specification]
#[verifier::external_body]
pub struct ExIoError(std::io::Error);

/// What a URL lacks for a connection to be attempted.
#[derive(Debug, Clone, Copy, PartialEq, Eq, Structural)]
pub enum UrlError {
    /// The URL has no host.
    EmptyHost,
    /// The URL names no port and its scheme has no default one.
    InvalidPort,
}

/// Why a connection could not be established or used.
#[derive(Debug)]
pub enum Error {
    /// I/O error
    IO(std::io::Error),
    /// Ws error, with the message of the handshake or framing failure
    Ws(String),
    /// Socks error, with the message of the proxy handshake failure
    Socks(String),
    /// Tor error
    Tor(tor::Error),
    /// Url parse error
    Url(UrlError),
    /// Timeout
    Timeout,
    /// Invalid DNS name
    InvalidDNSName,
}

impl Error {
    /// The error for a URL without a host.
    #[inline]
    pub fn empty_host() -> (err: Self)
        ensures
            err == Error::Url(UrlError::EmptyHost),
    {
        Self::Url(UrlError::EmptyHost)
    }

    /// The error for a URL without a usable port.
    #[inline]
    pub fn invalid_port() -> (err: Self)
        ensures
            err == Error::Url(UrlError::InvalidPort),
    {
        Self::Url(UrlError::InvalidPort)
    }
}

impl From<std::io::Error> for Error {
    fn from(err: std::io::Error) -> (out: Self) {
        Error::IO(err)
    }
}

impl FromSpecImpl<std::io::Error> for Error {
    open spec fn obeys_from_spec() -> bool {
        true
    }

    open spec fn from_spec(err: std::io::Error) -> Self {
        Error::IO(err)
    }
}

impl From<tor::Error> for Error {
    fn from(err: tor::Error) -> (out: Self) {
        Error::Tor(err)
    }
}

impl FromSpecImpl<tor::Error> for Error {
    open spec fn obeys_from_spec() -> bool {
        true
    }

    open spec fn from_spec(err: tor::Error) -> Self {
        Error::Tor(err)
    }
}

impl From<UrlError> for Error {
    fn from(err: UrlError) -> (out: Self) {
        Error::Url(err)
    }
}

impl FromSpecImpl<UrlError> for Error {
    open spec fn obeys_from_spec() -> bool {
        true
    }

    open spec fn from_spec(err: UrlError) -> Self {
        Error::Url(err)
    }
}

} // verus!
