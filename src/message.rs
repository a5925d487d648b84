//! The tagged message body that follows the header.
use vstd::prelude::*;
use vstd::utf8::{decode_utf8, encode_utf8, valid_utf8};
use vstd::slice::slice_to_vec;
use crate::deserializer::MessageDeserializer;
use crate::error::{EncodeError, MessageError};
use crate::serializer::MessageSerializer;
use crate::wire::{be16, be32, from_be16, from_be32};

verus! {

/// Largest length that a 16-bit length prefix can state.
pub const MAX_FIELD_LEN: usize = 0xFFFF;

/// Different types of messages that can be sent through the tunnel.
#[derive(Debug, PartialEq, Eq, Clone, Copy, Structural)]
pub enum TunnelMessageType {
    /// Client is requesting to initiate a connection.
    Initiate,
    /// Server has accepted a connection.
    Initiated,
    /// Forward a message on behalf of the player to another player.
    Forward,
    /// Message to keep the stream alive while the connection is inactive.
    KeepAlive,
}

/// The message type that a type byte names, if any.
pub open spec fn type_of_byte(value: u8) -> Option<TunnelMessageType> {
    if value == 0 {
        Some(TunnelMessageType::Initiate)
    } else if value == 1 {
        Some(TunnelMessageType::Initiated)
    } else if value == 2 {
        Some(TunnelMessageType::Forward)
    } else if value == 3 {
        Some(TunnelMessageType::KeepAlive)
    } else {
        None
    }
}

impl TunnelMessageType {
    /// The type byte that stands for this message type on the wire.
    pub open spec fn spec_byte(self) -> u8 {
        match self {
            TunnelMessageType::Initiate => 0,
            TunnelMessageType::Initiated => 1,
            TunnelMessageType::Forward => 2,
            TunnelMessageType::KeepAlive => 3,
        }
    }

    /// The type byte that stands for this message type on the wire.
    #[verifier::when_used_as_spec(spec_byte)]
    pub fn byte(self) -> (r: u8)
        ensures
            r == self.spec_byte(),
            type_of_byte(r) == Some(self),
    {
        match self {
            TunnelMessageType::Initiate => 0,
            TunnelMessageType::Initiated => 1,
            TunnelMessageType::Forward => 2,
            TunnelMessageType::KeepAlive => 3,
        }
    }
}

impl TryFrom<u8> for TunnelMessageType {
    type Error = MessageError;

    /// Validates a type byte: the message type it names, or
    /// `UnknownMessageType`.
    fn try_from(value: u8) -> (r: Result<TunnelMessageType, MessageError>)
        ensures
            r == match type_of_byte(value) {
                Some(t) => Ok::<TunnelMessageType, MessageError>(t),
                None => Err(MessageError::UnknownMessageType),
            },
    {
        match value {
            0 => Ok(TunnelMessageType::Initiate),
            1 => Ok(TunnelMessageType::Initiated),
            2 => Ok(TunnelMessageType::Forward),
            3 => Ok(TunnelMessageType::KeepAlive),
            _ => Err(MessageError::UnknownMessageType),
        }
    }
}

impl vstd::std_specs::convert::TryFromSpecImpl<u8> for TunnelMessageType {
    open spec fn obeys_try_from_spec() -> bool {
        true
    }

    open spec fn try_from_spec(value: u8) -> Result<TunnelMessageType, MessageError> {
        match type_of_byte(value) {
            Some(t) => Ok(t),
            None => Err(MessageError::UnknownMessageType),
        }
    }
}

/// Variants of the tunnel message body.
#[derive(Debug)]
pub enum TunnelMessage {
    /// Client is requesting to initiate a connection.
    Initiate {
        /// Association token to authenticate with.
        association_token: String,
    },
    /// Server created and associated the tunnel.
    Initiated {
        /// Unique id of the tunnel, to be put in the header of later messages.
        tunnel_id: u32,
    },
    /// Client wants to forward a message.
    Forward {
        /// Local socket pool index the message was sent to; used to map to the
        /// target within the game.
        index: u8,
        /// Message contents to forward.
        message: Vec<u8>,
    },
    /// Keep alive.
    KeepAlive,
}

/// Mathematical value of a message: its fields as sequences and integers.
pub enum MessageModel {
    /// A request to open a tunnel, with the characters of its token.
    Initiate { association_token: Seq<char> },
    /// The confirmation that a tunnel was opened.
    Initiated { tunnel_id: u32 },
    /// A payload for the local endpoint `index`.
    Forward { index: u8, message: Seq<u8> },
    /// Keep alive.
    KeepAlive,
}

impl View for TunnelMessage {
    type V = MessageModel;

    open spec fn view(&self) -> MessageModel {
        match self {
            TunnelMessage::Initiate { association_token } => MessageModel::Initiate {
                association_token: association_token@,
            },
            TunnelMessage::Initiated { tunnel_id } => MessageModel::Initiated { tunnel_id: *tunnel_id },
            TunnelMessage::Forward { index, message } => MessageModel::Forward {
                index: *index,
                message: message@,
            },
            TunnelMessage::KeepAlive => MessageModel::KeepAlive,
        }
    }
}

impl MessageModel {
    /// Each variable-length field fits its 16-bit length prefix.
    pub open spec fn encodable(self) -> bool {
        match self {
            MessageModel::Initiate { association_token } => encode_utf8(association_token).len()
                <= MAX_FIELD_LEN,
            MessageModel::Forward { message, .. } => message.len() <= MAX_FIELD_LEN,
            _ => true,
        }
    }
}

/// Wire bytes of a message body: the type byte, then the variant's fields.
pub open spec fn encode_message(m: MessageModel) -> Seq<u8> {
    match m {
        MessageModel::Initiate { association_token } => seq![0u8] + be16(
            encode_utf8(association_token).len() as u16,
        ) + encode_utf8(association_token),
        MessageModel::Initiated { tunnel_id } => seq![1u8] + be32(tunnel_id),
        MessageModel::Forward { index, message } => seq![2u8, index] + be16(message.len() as u16)
            + message,
        MessageModel::KeepAlive => seq![3u8],
    }
}

/// What `String::from_utf8_lossy` makes of bytes that are not valid UTF-8.
pub uninterp spec fn utf8_lossy(bytes: Seq<u8>) -> Seq<char>;

/// Lenient UTF-8 decoding: valid text is decoded as is, invalid sequences
/// are replaced rather than rejected.
pub open spec fn lossy_text(bytes: Seq<u8>) -> Seq<char> {
    if valid_utf8(bytes) {
        decode_utf8(bytes)
    } else {
        utf8_lossy(bytes)
    }
}

/// Decoding of a message body from the front of `s`: the message and the
/// number of bytes it took, or the error of the first read that failed.
pub open spec fn parse_message(s: Seq<u8>) -> Result<(MessageModel, nat), MessageError> {
    if s.len() < 1 {
        Err(MessageError::Incomplete(1))
    } else if s[0] == 0 {
        if s.len() < 3 {
            Err(MessageError::Incomplete(2))
        } else {
            let n = from_be16(s[1], s[2]) as nat;
            if s.len() < 3 + n {
                Err(MessageError::Incomplete((s.len() - 3) as usize))
            } else {
                Ok(
                    (
                        MessageModel::Initiate { association_token: lossy_text(s.subrange(3, 3 + n as int)) },
                        3 + n,
                    ),
                )
            }
        }
    } else if s[0] == 1 {
        if s.len() < 5 {
            Err(MessageError::Incomplete(4))
        } else {
            Ok((MessageModel::Initiated { tunnel_id: from_be32(s[1], s[2], s[3], s[4]) }, 5))
        }
    } else if s[0] == 2 {
        if s.len() < 2 {
            Err(MessageError::Incomplete(1))
        } else if s.len() < 4 {
            Err(MessageError::Incomplete(2))
        } else {
            let n = from_be16(s[2], s[3]) as nat;
            if s.len() < 4 + n {
                Err(MessageError::Incomplete((s.len() - 4) as usize))
            } else {
                Ok((MessageModel::Forward { index: s[1], message: s.subrange(4, 4 + n as int) }, 4 + n))
            }
        }
    } else if s[0] == 3 {
        Ok((MessageModel::KeepAlive, 1))
    } else {
        Err(MessageError::UnknownMessageType)
    }
}

/// Relies on `String::from_utf8_lossy`: valid UTF-8 is decoded as is, and
/// on other input the result depends on the bytes alone.
#[verifier::external_body]
fn decode_lossy(bytes: &[u8]) -> (r: String)
    ensures
        valid_utf8(bytes@) ==> r@ == decode_utf8(bytes@),
        !valid_utf8(bytes@) ==> r@ == utf8_lossy(bytes@),
{
    String::from_utf8_lossy(bytes).into_owned()
}

impl TunnelMessage {
    /// Reads a tunnel message from the provided deserializer.
    pub fn read(read: &mut MessageDeserializer<'_>) -> (r: Result<TunnelMessage, MessageError>)
        ensures
            final(read).data() == old(read).data(),
            r is Ok <==> parse_message(old(read).remaining()) is Ok,
            r is Ok ==> parse_message(old(read).remaining())->Ok_0.0 == r->Ok_0@
                && final(read).advanced(old(read), parse_message(old(read).remaining())->Ok_0.1),
            r is Err ==> parse_message(old(read).remaining()) == Err::<(MessageModel, nat), _>(
                r->Err_0,
            ),
    {
        let ghost start = *read;
        let ty = read.read_u8()?;
        let ghost mid = *read;
        proof {
            mid.lemma_advanced_remaining(&start, 1);
        }
        let ty = TunnelMessageType::try_from(ty)?;
        match ty {
            TunnelMessageType::Initiate => {
                let length = read.read_u16()? as usize;
                let ghost after_len = *read;
                proof {
                    after_len.lemma_advanced_remaining(&mid, 2);
                }
                let token_bytes = read.read_bytes(length)?;
                proof {
                    read.lemma_advanced_remaining(&after_len, length as nat);
                    assert(token_bytes@ =~= start.remaining().subrange(3, 3 + length));
                }
                let token = decode_lossy(token_bytes);
                Ok(TunnelMessage::Initiate { association_token: token })
            },
            TunnelMessageType::Initiated => {
                let tunnel_id = read.read_u32()?;
                proof {
                    read.lemma_advanced_remaining(&mid, 4);
                }
                Ok(TunnelMessage::Initiated { tunnel_id })
            },
            TunnelMessageType::Forward => {
                let index = read.read_u8()?;
                let ghost after_index = *read;
                proof {
                    after_index.lemma_advanced_remaining(&mid, 1);
                }
                let length = read.read_u16()? as usize;
                let ghost after_len = *read;
                proof {
                    after_len.lemma_advanced_remaining(&after_index, 2);
                }
                let message = read.read_bytes(length)?;
                proof {
                    read.lemma_advanced_remaining(&after_len, length as nat);
                    assert(message@ =~= start.remaining().subrange(4, 4 + length));
                }
                Ok(TunnelMessage::Forward { index, message: slice_to_vec(message) })
            },
            TunnelMessageType::KeepAlive => Ok(TunnelMessage::KeepAlive),
        }
    }

    /// Writes the tunnel message to the provided serializer. A token or
    /// payload too long for its length prefix is reported, and then nothing
    /// is written.
    pub fn write(&self, write: &mut MessageSerializer) -> (r: Result<(), EncodeError>)
        ensures
            r is Ok <==> self@.encodable(),
            r is Ok ==> final(write)@ == old(write)@ + encode_message(self@),
            r is Err ==> r->Err_0 == EncodeError::PayloadTooLarge && final(write)@ == old(write)@,
    {
        match self {
            TunnelMessage::Initiate { association_token } => {
                let bytes = association_token.as_str().as_bytes();
                if bytes.len() > MAX_FIELD_LEN {
                    return Err(EncodeError::PayloadTooLarge);
                }
                write.write_u8(TunnelMessageType::Initiate.byte());
                write.write_u16(bytes.len() as u16);
                write.write_bytes(bytes);
            },
            TunnelMessage::Initiated { tunnel_id } => {
                write.write_u8(TunnelMessageType::Initiated.byte());
                write.write_u32(*tunnel_id);
            },
            TunnelMessage::Forward { index, message } => {
                if message.len() > MAX_FIELD_LEN {
                    return Err(EncodeError::PayloadTooLarge);
                }
                write.write_u8(TunnelMessageType::Forward.byte());
                write.write_u8(*index);
                write.write_u16(message.len() as u16);
                write.write_bytes(message.as_slice());
            },
            TunnelMessage::KeepAlive => {
                write.write_u8(TunnelMessageType::KeepAlive.byte());
            },
        }
        assert(final(write)@ =~= old(write)@ + encode_message(self@));
        Ok(())
    }
}

} // verus!
