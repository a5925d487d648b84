//! Codec for the tunnel protocol that relays game traffic through a server.
//!
//! A packet on the wire is a five byte header (protocol version and tunnel
//! id) followed by a message body whose first byte selects one of four
//! message kinds. All multi-byte integers are big-endian.
use vstd::prelude::*;

pub mod error;
pub mod wire;
pub mod serializer;
pub mod deserializer;
pub mod header;
pub mod message;
pub mod packet;
pub mod laws;

pub use error::{EncodeError, MessageError};
pub use header::TunnelMessageHeader;
pub use message::{TunnelMessage, TunnelMessageType};
pub use packet::{deserialize_message, serialize_message, TunnelPacket};
pub use serializer::MessageSerializer;
pub use deserializer::MessageDeserializer;

verus! {

/// Current version of the protocol.
pub const VERSION: u8 = 1;

} // verus!
