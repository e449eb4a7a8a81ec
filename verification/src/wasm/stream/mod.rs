//! Adapters of the browser stream.

pub mod io;
