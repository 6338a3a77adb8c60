//! A command-line client's core for a read-it-later bookmarking service:
//! the authorization state machine that obtains and validates a session
//! token, and the link-sync pipeline that reconciles fetched records into a
//! local store. The driver decides every step; the thin process edge around
//! it only performs the network calls, the file reads and writes, and the
//! operator prompt the driver asks for.

pub mod api;
pub mod auth;
pub mod config;
pub mod document;
pub mod driver;
pub mod store;

use vstd::prelude::*;

verus! {

/// Errors that the authorization and sync pipeline can report.
#[derive(Clone, Copy, PartialEq, Eq, Structural, Debug)]
pub enum SyncError {
    /// Network, connection or HTTP-layer failure.
    Transport,
    /// A response body did not match the expected shape.
    Decode,
    /// The local store refused a write or the schema statement.
    Persistence,
}

} // verus!
