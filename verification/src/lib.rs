//! Verified core of the RLBot v5 launcher: where the binaries and logs live,
//! which release asset to fetch and when, how the server is started and
//! stopped on the host, and the order in which a launch proceeds.

pub mod command;
pub mod config;
pub mod server;
pub mod text;
pub mod github;
pub mod updates;
pub mod binary_update;
pub mod launch;
