//! A typed client core for the Proxmox VE REST API.
//!
//! The crate holds the credential store and its builder, the formatting of
//! URLs and cookies, and the decisions of one authenticated call: which
//! request logs in, what the session transport carries, how the payload is
//! encoded, and which error a failure becomes. The network itself is left to
//! the caller, who performs each [`session::Action`] and reports back an
//! [`session::Event`].

pub mod client;
pub mod format;
pub mod session;
pub mod vm;
