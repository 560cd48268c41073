//! Host-side protocol engine for a Zigbee network processor reached over a
//! serial link.
//!
//! The crate holds the parts of the engine that decide and compute, and
//! proves them:
//!
//! - [`packet`]: the frame codec, with its round-trip law;
//! - [`command`]: the typed command model, and the commands that the
//!   handshake needs;
//! - [`session`]: the decisions of a correlated request/response exchange;
//! - [`builder`]: the bring-up handshake and what it finds out.
//!
//! All transport I/O is left to the caller, which feeds bytes and events in
//! and performs the actions that come out.

pub mod builder;
pub mod command;
pub mod packet;
pub mod session;

pub use builder::Builder;
