//! Errors of the browser backend.

use vstd::prelude::*;
use vstd::std_specs::convert::FromSpecImpl;

verus! {

/// `std::str::Utf8Error`, carried through as an opaque value.
#[verifier::external_type_specification]
#[verifier::external_body]
pub struct ExUtf8Error(std::str::Utf8Error);

/// Why a browser connection could not be established or used.
#[derive(Debug, PartialEq, Eq)]
pub enum Error {
    /// The connection is not open, so nothing can be sent or received on it.
    ConnectionNotOpen,
    /// A text payload that is no valid string.
    InvalidEncoding,
    /// A binary payload that came as a blob, which cannot be decoded.
    CantDecodeBlob,
    /// A payload that is neither a string nor binary data.
    UnknownDataType,
    /// Binary data that was asked for as text and is no valid UTF-8.
    Utf8(std::str::Utf8Error),
    /// Timeout
    Timeout,
}

impl From<std::str::Utf8Error> for Error {
    fn from(err: std::str::Utf8Error) -> (out: Self) {
        Error::Utf8(err)
    }
}

impl FromSpecImpl<std::str::Utf8Error> for Error {
    open spec fn obeys_from_spec() -> bool {
        true
    }

    open spec fn from_spec(err: std::str::Utf8Error) -> Self {
        Error::Utf8(err)
    }
}

} // verus!
