//! A whole packet: header then message, and the one-call helpers.
use vstd::prelude::*;
use crate::deserializer::MessageDeserializer;
use crate::error::{EncodeError, MessageError};
use crate::header::{encode_header, parse_header, TunnelMessageHeader};
use crate::message::{encode_message, parse_message, MessageModel, TunnelMessage};
use crate::serializer::MessageSerializer;
use crate::VERSION;

verus! {

/// Individual tunnel message packet: the header and the message.
#[derive(Debug)]
pub struct TunnelPacket {
    /// Packet header.
    pub header: TunnelMessageHeader,
    /// Packet body.
    pub message: TunnelMessage,
}

impl View for TunnelPacket {
    type V = (TunnelMessageHeader, MessageModel);

    open spec fn view(&self) -> (TunnelMessageHeader, MessageModel) {
        (self.header, self.message@)
    }
}

/// Wire bytes of a packet: the header, then the message body.
pub open spec fn encode_packet(h: TunnelMessageHeader, m: MessageModel) -> Seq<u8> {
    encode_header(h) + encode_message(m)
}

/// Decoding of a packet from the front of `s`: the header and the message,
/// or the error of the first read that failed.
pub open spec fn parse_packet(s: Seq<u8>) -> Result<(TunnelMessageHeader, MessageModel), MessageError> {
    match parse_header(s) {
        Err(e) => Err(e),
        Ok((h, n)) => match parse_message(s.subrange(n as int, s.len() as int)) {
            Err(e) => Err(e),
            Ok((m, _)) => Ok((h, m)),
        },
    }
}

/// The mathematical value of a decoding result.
pub open spec fn packet_result(r: Result<TunnelPacket, MessageError>) -> Result<
    (TunnelMessageHeader, MessageModel),
    MessageError,
> {
    match r {
        Ok(p) => Ok(p@),
        Err(e) => Err(e),
    }
}

impl TunnelPacket {
    /// Reads a tunnel packet from the provided deserializer.
    pub fn read(read: &mut MessageDeserializer<'_>) -> (r: Result<TunnelPacket, MessageError>)
        ensures
            final(read).data() == old(read).data(),
            packet_result(r) == parse_packet(old(read).remaining()),
    {
        let ghost start = *read;
        let header = TunnelMessageHeader::read(read)?;
        proof {
            read.lemma_advanced_remaining(&start, 5);
        }
        let message = TunnelMessage::read(read)?;
        Ok(TunnelPacket { header, message })
    }

    /// Writes the tunnel packet to the provided serializer. A token or
    /// payload too long for its length prefix is reported, and then only the
    /// header has been written.
    pub fn write(&self, write: &mut MessageSerializer) -> (r: Result<(), EncodeError>)
        ensures
            r is Ok <==> self.message@.encodable(),
            r is Ok ==> final(write)@ == old(write)@ + encode_packet(self.header, self.message@),
            r is Err ==> r->Err_0 == EncodeError::PayloadTooLarge
                && final(write)@ == old(write)@ + encode_header(self.header),
    {
        self.header.write(write);
        let r = self.message.write(write);
        assert(final(write)@ =~= old(write)@ + encode_packet(self.header, self.message@) || r is Err);
        r
    }
}

/// Serializes the message into bytes, with a header of the current protocol
/// version and the given tunnel id. A token or payload too long for its
/// length prefix is reported instead.
pub fn serialize_message(tunnel_id: u32, message: &TunnelMessage) -> (r: Result<Vec<u8>, EncodeError>)
    ensures
        r is Ok <==> message@.encodable(),
        r is Ok ==> r->Ok_0@ == encode_packet(
            TunnelMessageHeader { version: VERSION, tunnel_id },
            message@,
        ),
        r is Err ==> r->Err_0 == EncodeError::PayloadTooLarge,
{
    let mut write = MessageSerializer::default();
    let header = TunnelMessageHeader { version: VERSION, tunnel_id };
    header.write(&mut write);
    message.write(&mut write)?;
    Ok(write.into_inner())
}

/// Deserializes a header and a message from the buffer.
pub fn deserialize_message(buffer: &[u8]) -> (r: Result<TunnelPacket, MessageError>)
    ensures
        packet_result(r) == parse_packet(buffer@),
{
    let mut read = MessageDeserializer::new(buffer);
    TunnelPacket::read(&mut read)
}

} // verus!
