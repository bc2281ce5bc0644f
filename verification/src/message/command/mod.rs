//! The command registry: one module per supported command, each binding the
//! fixed 12-byte wire name to the payload's encoder and decoder.

pub mod addr;
pub mod get_addr;
pub mod version;
