//! Verified core of an event-driven relay: inbound structured events carrying
//! binary payloads are filtered by declarative allow-lists, validated,
//! normalized, forwarded to an external recognition service, and the result is
//! re-wrapped as an outgoing event of the same lineage.
//!
//! Everything that decides or computes lives here with a contract; the HTTP
//! server, the network call itself, and the wire encoding of events are left
//! to the surrounding application.

pub mod client;
pub mod convert;
pub mod error;
pub mod event;
pub mod filter;
