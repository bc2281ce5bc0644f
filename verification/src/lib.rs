//! Codec for a peer-to-peer binary wire protocol: decodes a byte stream
//! arriving from a network connection into typed `Message` values, and encodes
//! outgoing messages back into the exact byte layout the protocol requires.
//!
//! A message is a 24-byte header (4-byte network magic, 12-byte NUL-padded
//! command name, 4-byte payload length, 4-byte double-hash checksum) followed
//! by a command-specific payload.

pub mod buffer;
pub mod error;
pub mod message;
pub mod net;
pub mod wire;

pub use error::CodecError;
pub use message::{Command, Message, MsgCodec};
pub use net::NetworkType;
