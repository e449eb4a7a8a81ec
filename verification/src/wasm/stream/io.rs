//! What the byte-stream adapter of a browser connection reports.

use vstd::prelude::*;

use crate::wasm::{Error, WsMessage};

verus! {

/// The kind of I/O error that the adapter reports for an error of the connection.
#[derive(Debug, Clone, Copy, PartialEq, Eq, Structural)]
pub enum IoErrorKind {
    /// The connection is not open.
    NotConnected,
    /// Any other failure.
    Other,
}

/// The I/O result for the result of a send, flush or close.
#[inline]
pub fn convert_res_tuple(res: Result<(), Error>) -> (r: Result<(), IoErrorKind>)
    ensures
        res is Ok ==> r is Ok,
        res matches Err(err) ==> r == Err::<(), IoErrorKind>(
            if err is ConnectionNotOpen {
                IoErrorKind::NotConnected
            } else {
                IoErrorKind::Other
            },
        ),
{
    match res {
        Ok(()) => Ok(()),
        Err(err) => Err(convert_err(err)),
    }
}

/// The kind of I/O error for an error of the connection: a connection that is not open is
/// reported as not connected, everything else as another error.
pub fn convert_err(err: Error) -> (kind: IoErrorKind)
    ensures
        kind == if err is ConnectionNotOpen {
            IoErrorKind::NotConnected
        } else {
            IoErrorKind::Other
        },
{
    match err {
        Error::ConnectionNotOpen => IoErrorKind::NotConnected,
        _ => IoErrorKind::Other,
    }
}

/// The bytes that the adapter hands on for a received item: the data of a message, and an
/// error as it is.
pub fn received(item: Result<WsMessage, Error>) -> (r: Result<Vec<u8>, Error>)
    ensures
        item matches Ok(msg) ==> r matches Ok(data) && data@ == msg.spec_data(),
        item matches Err(err) ==> r == Err::<Vec<u8>, Error>(err),
{
    match item {
        Ok(msg) => Ok(msg.into_data()),
        Err(err) => Err(err),
    }
}

} // verus!
