//! The fixed five byte header in front of every message.
use vstd::prelude::*;
use crate::deserializer::MessageDeserializer;
use crate::error::MessageError;
use crate::serializer::MessageSerializer;
use crate::wire::{be32, from_be32};

verus! {

/// Header before a tunnel message holding the protocol version and the id
/// of the tunnel.
#[derive(Debug, Clone, Copy, PartialEq, Eq, Structural)]
pub struct TunnelMessageHeader {
    /// Protocol version.
    pub version: u8,
    /// Id of the tunnel this message belongs to, `u32::MAX` while the tunnel
    /// is not yet established.
    pub tunnel_id: u32,
}

/// Wire bytes of a header: the version, then the tunnel id big-endian.
pub open spec fn encode_header(h: TunnelMessageHeader) -> Seq<u8> {
    seq![h.version] + be32(h.tunnel_id)
}

/// Decoding of a header from the front of `s`: the header and the number of
/// bytes it took, or the error of the first read that failed.
pub open spec fn parse_header(s: Seq<u8>) -> Result<(TunnelMessageHeader, nat), MessageError> {
    if s.len() < 1 {
        Err(MessageError::Incomplete(1))
    } else if s.len() < 5 {
        Err(MessageError::Incomplete(4))
    } else {
        Ok((TunnelMessageHeader { version: s[0], tunnel_id: from_be32(s[1], s[2], s[3], s[4]) }, 5))
    }
}

impl TunnelMessageHeader {
    /// Reads a tunnel message header from the provided deserializer.
    pub fn read(buf: &mut MessageDeserializer<'_>) -> (r: Result<TunnelMessageHeader, MessageError>)
        ensures
            final(buf).data() == old(buf).data(),
            r is Ok <==> parse_header(old(buf).remaining()) is Ok,
            r is Ok ==> parse_header(old(buf).remaining()) == Ok::<_, MessageError>((r->Ok_0, 5nat))
                && final(buf).advanced(old(buf), 5),
            r is Err ==> parse_header(old(buf).remaining()) == Err::<(TunnelMessageHeader, nat), _>(
                r->Err_0,
            ),
    {
        let ghost start = *buf;
        let version = buf.read_u8()?;
        let ghost mid = *buf;
        proof {
            mid.lemma_advanced_remaining(&start, 1);
        }
        let tunnel_id = buf.read_u32()?;
        proof {
            buf.lemma_advanced_remaining(&mid, 4);
        }
        Ok(TunnelMessageHeader { version, tunnel_id })
    }

    /// Writes the tunnel message header to the provided serializer.
    pub fn write(&self, buf: &mut MessageSerializer)
        ensures
            final(buf)@ == old(buf)@ + encode_header(*self),
    {
        buf.write_u8(self.version);
        buf.write_u32(self.tunnel_id);
        assert(final(buf)@ == old(buf)@ + encode_header(*self));
    }
}

} // verus!
