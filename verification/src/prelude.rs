//! Prelude

pub use crate::addr::SocketAddress;
pub use crate::message::{CloseFrame, Message};
pub use crate::native::tor;
pub use crate::native::{ConnectPlan, Error, Target, Transport, UrlError};
pub use crate::ConnectionMode;
