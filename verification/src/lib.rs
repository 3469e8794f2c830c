//! A private certificate-authority bootstrap and a length-framed relay
//! protocol.
//!
//! The crate has two halves. The trust half (`trust`, `ca`) generates or
//! loads a self-signed root certificate together with its signing key,
//! enforcing the regeneration invariant: a fresh key always gets a fresh
//! certificate. The wire half (`envelope`, `handler`) frames heartbeat and
//! payload messages on a raw byte stream and drives a per-connection
//! dispatch loop. `document` reads the configuration text into plain data,
//! `config` turns that data into the configuration and resolves the
//! standard file locations, and `error` holds the failure taxonomy shared
//! by all of them.

pub mod ca;
pub mod config;
pub mod document;
pub mod envelope;
pub mod error;
pub mod handler;
pub mod trust;

pub use error::Error;
pub use error::IoKind;
