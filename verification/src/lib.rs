//! Decoding and lifecycle rules of a directory-change watcher.
//!
//! The crate holds the parts of a watcher that can be stated exactly: the
//! event model, the decoder of the raw notification buffer, the decisions of
//! the watch loop and of the session that owns it. Beside them stand the
//! values that the mail and archive commands of the application exchange.

pub mod archive;
pub mod chain;
pub mod decode;
pub mod error;
pub mod event;
pub mod layout;
pub mod mail;
pub mod publish;
pub mod session;
pub mod watch_loop;
