//! The browser backend: messages as a browser hands them over, without control frames.

mod error;
mod message;
pub mod stream;

pub use self::error::Error;
pub use self::message::{EventData, WsMessage};
