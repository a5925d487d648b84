//! Properties that relate encoding and decoding.
use vstd::prelude::*;
use vstd::utf8::{encode_utf8, encode_utf8_decode_utf8, encode_utf8_valid_utf8};
use crate::error::MessageError;
use crate::header::{encode_header, TunnelMessageHeader};
use crate::message::{encode_message, lossy_text, MessageModel};
use crate::packet::{encode_packet, parse_packet};
use crate::wire::{be16, lemma_be16_round_trip, lemma_be32_round_trip};
use crate::VERSION;

verus! {

/// The body that follows the header in an encoded packet is the encoded
/// message.
proof fn lemma_body_of_packet(h: TunnelMessageHeader, m: MessageModel)
    ensures
        encode_packet(h, m).len() == 5 + encode_message(m).len(),
        encode_packet(h, m).subrange(5, encode_packet(h, m).len() as int) == encode_message(m),
        encode_packet(h, m).subrange(0, 5) == encode_header(h),
{
    assert(encode_packet(h, m).subrange(5, encode_packet(h, m).len() as int) =~= encode_message(m));
    assert(encode_packet(h, m).subrange(0, 5) =~= encode_header(h));
}

/// Decoding what was encoded gives back the header, of the current
/// version and the given tunnel id, and the message, for every message
/// whose token or payload fits its 16-bit length prefix.
pub proof fn lemma_round_trip(tunnel_id: u32, m: MessageModel)
    requires
        m.encodable(),
    ensures
        parse_packet(encode_packet(TunnelMessageHeader { version: VERSION, tunnel_id }, m)) == Ok::<
            _,
            MessageError,
        >((TunnelMessageHeader { version: VERSION, tunnel_id }, m)),
{
    let h = TunnelMessageHeader { version: VERSION, tunnel_id };
    let s = encode_packet(h, m);
    lemma_body_of_packet(h, m);
    lemma_be32_round_trip(tunnel_id);
    let body = encode_message(m);
    match m {
        MessageModel::Initiate { association_token } => {
            let t = encode_utf8(association_token);
            lemma_be16_round_trip(t.len() as u16);
            encode_utf8_valid_utf8(association_token);
            encode_utf8_decode_utf8(association_token);
            assert(body.subrange(3, 3 + t.len() as int) =~= t);
            assert(lossy_text(t) == association_token);
        },
        MessageModel::Initiated { tunnel_id: id } => {
            lemma_be32_round_trip(id);
        },
        MessageModel::Forward { index, message } => {
            lemma_be16_round_trip(message.len() as u16);
            assert(body.subrange(4, 4 + message.len() as int) =~= message);
        },
        MessageModel::KeepAlive => {},
    }
}

/// Every strict prefix of an encoded packet fails to decode with
/// `Incomplete`: never a value, never another error.
pub proof fn lemma_truncation(tunnel_id: u32, m: MessageModel, k: nat)
    requires
        m.encodable(),
        k < encode_packet(TunnelMessageHeader { version: VERSION, tunnel_id }, m).len(),
    ensures
        parse_packet(
            encode_packet(TunnelMessageHeader { version: VERSION, tunnel_id }, m).subrange(0, k as int),
        ) is Err,
        parse_packet(
            encode_packet(TunnelMessageHeader { version: VERSION, tunnel_id }, m).subrange(0, k as int),
        )->Err_0 is Incomplete,
{
    let h = TunnelMessageHeader { version: VERSION, tunnel_id };
    let s = encode_packet(h, m);
    let p = s.subrange(0, k as int);
    lemma_body_of_packet(h, m);
    if k >= 5 {
        let body = encode_message(m);
        let q = p.subrange(5, k as int);
        assert(q =~= body.subrange(0, k - 5));
        match m {
            MessageModel::Initiate { association_token } => {
                lemma_be16_round_trip(encode_utf8(association_token).len() as u16);
            },
            MessageModel::Forward { index, message } => {
                lemma_be16_round_trip(message.len() as u16);
            },
            _ => {},
        }
    }
}

/// A packet whose type byte, the first after the header, names no message
/// type fails with `UnknownMessageType`, whatever follows it.
pub proof fn lemma_unknown_type(s: Seq<u8>)
    requires
        s.len() >= 6,
        s[5] >= 4,
    ensures
        parse_packet(s) == Err::<(TunnelMessageHeader, MessageModel), _>(
            MessageError::UnknownMessageType,
        ),
{
}

/// A token that is not valid UTF-8 does not fail the decoding: the packet
/// decodes to an `Initiate` whose token is the lenient decoding of its
/// bytes, which keeps valid text as it is.
pub proof fn lemma_lossy_token(h: TunnelMessageHeader, token: Seq<u8>)
    requires
        token.len() <= 0xFFFF,
    ensures
        parse_packet(encode_header(h) + seq![0u8] + be16(token.len() as u16) + token) == Ok::<
            _,
            MessageError,
        >((h, MessageModel::Initiate { association_token: lossy_text(token) })),
{
    let s = encode_header(h) + seq![0u8] + be16(token.len() as u16) + token;
    lemma_be32_round_trip(h.tunnel_id);
    lemma_be16_round_trip(token.len() as u16);
    let body = s.subrange(5, s.len() as int);
    assert(body =~= seq![0u8] + be16(token.len() as u16) + token);
    assert(body.subrange(3, 3 + token.len() as int) =~= token);
}

} // verus!
