//! Mailboxes, links and lifecycle outcomes of supervised actors.
pub mod actor;
pub mod error;
pub mod links;
pub mod mailbox;
pub mod platform;
pub mod supervision;
