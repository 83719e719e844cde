//! A bidirectional serial-port terminal, as pure decision logic.
//!
//! The library holds the rules of the terminal: how a run is configured, when
//! opening the device is retried, what is done with each read from the
//! device or from the controlling input, and how a file is sent in full. The
//! program around it performs the I/O and hands back what happened.

pub mod config;
pub mod messages;
pub mod relay;
pub mod retry;
pub mod transfer;
