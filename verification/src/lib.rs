//! A registry for the one client that is connected to the Aleo network at a
//! time: which endpoint a network and a provider name, whether an endpoint's
//! chain is advancing, and how the current client is replaced.
//!
//! The crate does no I/O. Where a decision needs a client to be built, a
//! height to be probed or a preference to be read or written, it says so,
//! and takes what came of it as a value.

pub mod error;
pub mod health;
pub mod registry;
pub mod target;
mod text;

pub use health::Status;
pub use registry::AleoClient;
