//! Message-oriented WebSocket transport: connection planning, the message
//! model and one-time client initialisation, with machine-checked contracts.

use std::path::PathBuf;
use vstd::prelude::*;

pub mod addr;
pub mod message;
pub mod native;
pub mod prelude;
pub mod text;
pub mod wasm;

pub use self::addr::SocketAddress;
pub use self::message::{CloseFrame, Message};
pub use self::native::Error;

verus! {

/// `std::path::PathBuf`, carried through as an opaque value.
#[verifier::external_type_specification]
#[verifier::external_body]
pub struct ExPathBuf(std::path::PathBuf);

/// `PathBuf::clone` returns a path equal to the one it is given.
pub assume_specification[ <PathBuf as Clone>::clone ](path: &PathBuf) -> (copy: PathBuf)
    ensures
        copy == *path,
;

/// How a connection reaches the remote endpoint.
#[derive(Debug, PartialEq, Eq, PartialOrd, Ord, Hash)]
pub enum ConnectionMode {
    /// Direct
    Direct,
    /// Custom proxy
    Proxy(SocketAddress),
    /// Embedded tor client
    Tor {
        /// Path for cache and state data
        custom_path: Option<PathBuf>,
    },
}

impl Clone for ConnectionMode {
    fn clone(&self) -> (mode: Self)
        ensures
            mode == *self,
    {
        match self {
            ConnectionMode::Direct => ConnectionMode::Direct,
            ConnectionMode::Proxy(addr) => ConnectionMode::Proxy(*addr),
            ConnectionMode::Tor { custom_path } => ConnectionMode::Tor {
                custom_path: custom_path.clone(),
            },
        }
    }
}

impl Default for ConnectionMode {
    fn default() -> (mode: Self)
        ensures
            mode == ConnectionMode::Direct,
    {
        ConnectionMode::Direct
    }
}

impl ConnectionMode {
    /// Direct connection
    #[inline]
    pub fn direct() -> (mode: Self)
        ensures
            mode == ConnectionMode::Direct,
    {
        Self::Direct
    }

    /// Proxy
    #[inline]
    pub fn proxy(addr: SocketAddress) -> (mode: Self)
        ensures
            mode == ConnectionMode::Proxy(addr),
    {
        Self::Proxy(addr)
    }

    /// Embedded tor client, with its default storage
    #[inline]
    pub fn tor() -> (mode: Self)
        ensures
            mode == (ConnectionMode::Tor { custom_path: None }),
    {
        Self::Tor { custom_path: None }
    }

    /// Embedded tor client that keeps its cache and state under `data_path`
    #[inline]
    pub fn tor_with_path(data_path: PathBuf) -> (mode: Self)
        ensures
            mode == (ConnectionMode::Tor { custom_path: Some(data_path) }),
    {
        Self::Tor { custom_path: Some(data_path) }
    }
}

} // verus!
