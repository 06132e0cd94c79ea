//! Verified core of a terminal client for a remote tunnel service: the
//! session cache with its staleness discipline, the mutation coordinator,
//! the two-screen navigation state machine, and the session bootstrap
//! helpers.  All network and terminal I/O stays outside this crate; the
//! functions here take the outcomes of those calls as plain values and are
//! verified for every such outcome.

pub mod bootstrap;
pub mod cache;
pub mod fetch;
pub mod mutation;
pub mod nav;
pub mod snapshot;
