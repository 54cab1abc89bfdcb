//! The pieces of the asynchronous SSH layer that hold no socket: the identity
//! tokens of I/O sources and the configuration of a session.
pub mod reactor;
pub mod session;

pub use reactor::{Token, TokenCounter};
pub use session::SessionConfiguration;
