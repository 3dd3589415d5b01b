//! Session layer for serial devices behind a handle-based, blocking boundary.
//!
//! A host that cannot touch hardware drives a serial device through opaque
//! 64-bit handles and byte buffers that it owns.  This crate holds the rules of
//! that boundary: the error channel, the table of open sessions, the mapping of
//! raw option codes onto line settings, the read/write/control protocol, and
//! the records that describe the devices found.  Device I/O itself, the
//! process-wide singletons and the pointer handling of the C boundary live
//! with the caller; every function here works on plain values.

pub mod config;
pub mod error_channel;
pub mod ports;
pub mod protocol;
pub mod session_table;
