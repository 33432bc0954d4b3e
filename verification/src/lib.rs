//! Zero-copy publish-subscribe messaging core over a shared-memory chunk pool,
//! together with a node registry that tracks the participants of the system.
//!
//! The crate models the two central protocols of such a transport:
//!
//! * the loaned-memory sample lifecycle: a publisher loans a fixed-size chunk
//!   from its data segment, user code writes a payload into it, and sending
//!   hands the chunk's offset to every connected subscriber queue without
//!   copying the payload; a sample that is never sent returns its chunk to
//!   the pool, so no chunk is leaked on any exit path;
//! * the node registry: every participating node registers an entry under its
//!   configuration root, entries can be enumerated and classified as alive or
//!   dead, and deregistration removes exactly the node's own entry.

pub mod chunk;
pub mod config;
pub mod errors;
pub mod node;
pub mod publisher;
pub mod registry;
pub mod sample;
pub mod segment;
