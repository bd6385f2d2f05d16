//! Message transport over an encrypted stream: length-prefixed frames,
//! keepalive, coordinated shutdown, a reconnecting client and a registry of
//! the nodes a server has accepted.
//!
//! The crate holds the decisions of the transport as verified functions on
//! plain values. Reading, writing, sleeping and spawning are left to the
//! caller, which feeds what happened into the state machines here and carries
//! out the actions they answer with.

pub mod accept;
pub mod addr;
pub mod connect;
pub mod frame;
pub mod manager;
pub mod registry;
pub mod setup;
pub mod trusted;
pub mod utils;
