//! Session-lifecycle and navigation coordination for a WebDriver BiDi
//! browser-automation client.
//!
//! The controller in [`client`] sequences session start, discovery of the
//! initial browsing context, navigation and teardown; [`nav`] builds the
//! protocol command parameters for navigation and history traversal; and
//! [`error`] is the closed taxonomy that every operation surfaces instead of
//! protocol-internal error types. The protocol exchange itself is
//! asynchronous and lives with the caller: each operation here either builds
//! the command to dispatch or folds the protocol client's answer back into
//! the controller's state, and its contract states exactly what is stored
//! and which error, message included, each failure becomes.

pub mod client;
pub mod error;
pub mod nav;
