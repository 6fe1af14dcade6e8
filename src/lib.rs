//! Startup pipeline and block-event dispatch around a chain-sync runtime.
//!
//! The library holds the decisions of a node's bootstrap: which mode the
//! command line selects, which listen address a resolved external address
//! gives, the default logging settings, the lifecycle of the engine that
//! drives the runtime, and the multicast of processed blocks to the
//! registered subscribers. The runtime itself, file and network I/O, and the
//! process-wide logger are driven from outside the library.

pub mod error;
pub mod cli;
pub mod address;
pub mod logging;
pub mod subscriber;
pub mod engine;
