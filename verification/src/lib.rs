//! A single-threaded asynchronous runtime for hosts that expose I/O readiness
//! only through waitable handles: opaque resources that can be batch-polled for
//! readiness but offer no callbacks and no thread-blocking wait.
//!
//! The reactor owns a table of registered handles; a pollable binding couples
//! one registered handle to the explicit suspend/resume protocol; the driver
//! turns one root future into a blocking call by alternating between polling
//! the future and driving the reactor. Timers and the byte-stream layer
//! (cursor, repeat, copy) are the most common consumers.
//!
//! The host itself is opaque: everything it must provide stands in the
//! [`host::Host`] trait, and every claim proved here holds for any host that
//! meets that trait's contract.

pub mod host;
pub mod http;
pub mod io;
pub mod runtime;
pub mod time;
