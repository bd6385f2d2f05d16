//! Configuration of the two ends.

pub mod client_helper;
pub mod server_helper;
