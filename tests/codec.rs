use tunnel_codec::{
    deserialize_message, serialize_message, EncodeError, MessageDeserializer, MessageError,
    MessageSerializer, TunnelMessage, TunnelMessageHeader, TunnelMessageType, TunnelPacket,
    VERSION,
};

fn decode_ok(bytes: &[u8]) -> TunnelPacket {
    match deserialize_message(bytes) {
        Ok(p) => p,
        Err(e) => panic!("unexpected error {:?}", e),
    }
}

fn decode_err(bytes: &[u8]) -> MessageError {
    match deserialize_message(bytes) {
        Ok(p) => panic!("unexpected packet {:?}", p),
        Err(e) => e,
    }
}

#[test]
fn keep_alive_scenario() {
    let bytes = serialize_message(7, &TunnelMessage::KeepAlive).unwrap();
    assert_eq!(bytes, vec![0x01, 0x00, 0x00, 0x00, 0x07, 0x03]);
    let packet = decode_ok(&bytes);
    assert_eq!(packet.header, TunnelMessageHeader { version: 1, tunnel_id: 7 });
    assert!(matches!(packet.message, TunnelMessage::KeepAlive));
}

#[test]
fn forward_scenario() {
    let msg = TunnelMessage::Forward { index: 2, message: vec![0xAA, 0xBB] };
    let bytes = serialize_message(1, &msg).unwrap();
    assert_eq!(bytes, vec![0x01, 0x00, 0x00, 0x00, 0x01, 0x02, 0x02, 0x00, 0x02, 0xAA, 0xBB]);
    let packet = decode_ok(&bytes);
    assert_eq!(packet.header, TunnelMessageHeader { version: 1, tunnel_id: 1 });
    match packet.message {
        TunnelMessage::Forward { index, message } => {
            assert_eq!(index, 2);
            assert_eq!(message, vec![0xAA, 0xBB]);
        }
        other => panic!("unexpected message {:?}", other),
    }
}

#[test]
fn initiate_round_trip() {
    let msg = TunnelMessage::Initiate { association_token: "tök€n😀".to_string() };
    let bytes = serialize_message(u32::MAX, &msg).unwrap();
    let token_len = "tök€n😀".len();
    assert_eq!(&bytes[..8], &[0x01, 0xFF, 0xFF, 0xFF, 0xFF, 0x00, 0x00, token_len as u8][..]);
    let packet = decode_ok(&bytes);
    assert_eq!(packet.header, TunnelMessageHeader { version: VERSION, tunnel_id: u32::MAX });
    match packet.message {
        TunnelMessage::Initiate { association_token } => assert_eq!(association_token, "tök€n😀"),
        other => panic!("unexpected message {:?}", other),
    }
}

#[test]
fn initiated_round_trip() {
    let msg = TunnelMessage::Initiated { tunnel_id: 0x0102_0304 };
    let bytes = serialize_message(0xA0B0_C0D0, &msg).unwrap();
    assert_eq!(bytes, vec![0x01, 0xA0, 0xB0, 0xC0, 0xD0, 0x01, 0x01, 0x02, 0x03, 0x04]);
    let packet = decode_ok(&bytes);
    assert_eq!(packet.header.tunnel_id, 0xA0B0_C0D0);
    assert!(matches!(packet.message, TunnelMessage::Initiated { tunnel_id: 0x0102_0304 }));
}

#[test]
fn largest_payload_round_trip() {
    let payload: Vec<u8> = (0..0xFFFFusize).map(|i| (i % 251) as u8).collect();
    let msg = TunnelMessage::Forward { index: 9, message: payload.clone() };
    let bytes = serialize_message(3, &msg).unwrap();
    assert_eq!(bytes.len(), 5 + 4 + 0xFFFF);
    assert_eq!(&bytes[5..9], &[0x02, 0x09, 0xFF, 0xFF][..]);
    match decode_ok(&bytes).message {
        TunnelMessage::Forward { index, message } => {
            assert_eq!(index, 9);
            assert_eq!(message, payload);
        }
        other => panic!("unexpected message {:?}", other),
    }
}

#[test]
fn oversized_payload_is_reported() {
    let msg = TunnelMessage::Forward { index: 0, message: vec![0; 0x1_0000] };
    assert_eq!(serialize_message(1, &msg), Err(EncodeError::PayloadTooLarge));
    let token = "a".repeat(0x1_0000);
    let msg = TunnelMessage::Initiate { association_token: token };
    assert_eq!(serialize_message(1, &msg), Err(EncodeError::PayloadTooLarge));
    let mut write = MessageSerializer::default();
    assert_eq!(msg.write(&mut write), Err(EncodeError::PayloadTooLarge));
    assert!(write.buffer().is_empty());
}

#[test]
fn truncated_packets_are_incomplete() {
    let msg = TunnelMessage::Forward { index: 2, message: vec![0xAA, 0xBB, 0xCC] };
    let bytes = serialize_message(1, &msg).unwrap();
    let expected = [
        MessageError::Incomplete(1),
        MessageError::Incomplete(4),
        MessageError::Incomplete(4),
        MessageError::Incomplete(4),
        MessageError::Incomplete(4),
        MessageError::Incomplete(1),
        MessageError::Incomplete(1),
        MessageError::Incomplete(2),
        MessageError::Incomplete(2),
        MessageError::Incomplete(0),
        MessageError::Incomplete(1),
        MessageError::Incomplete(2),
    ];
    for k in 0..bytes.len() {
        assert_eq!(decode_err(&bytes[..k]), expected[k], "prefix of {} bytes", k);
    }
}

#[test]
fn truncated_initiate_and_initiated() {
    let bytes = serialize_message(5, &TunnelMessage::Initiate { association_token: "abc".to_string() })
        .unwrap();
    assert_eq!(decode_err(&bytes[..6]), MessageError::Incomplete(2));
    assert_eq!(decode_err(&bytes[..7]), MessageError::Incomplete(2));
    assert_eq!(decode_err(&bytes[..8]), MessageError::Incomplete(0));
    assert_eq!(decode_err(&bytes[..10]), MessageError::Incomplete(2));
    let bytes = serialize_message(5, &TunnelMessage::Initiated { tunnel_id: 1 }).unwrap();
    for k in 6..bytes.len() {
        assert_eq!(decode_err(&bytes[..k]), MessageError::Incomplete(4));
    }
}

#[test]
fn unknown_message_type() {
    for ty in 0x04..=0xFFu8 {
        assert_eq!(decode_err(&[0x01, 0, 0, 0, 1, ty]), MessageError::UnknownMessageType);
        assert_eq!(decode_err(&[0x01, 0, 0, 0, 1, ty, 0, 0, 0]), MessageError::UnknownMessageType);
    }
}

#[test]
fn empty_reader() {
    let empty: [u8; 0] = [];
    let mut read = MessageDeserializer::new(&empty);
    assert!(read.is_empty());
    assert_eq!(read.len(), 0);
    assert_eq!(read.capacity(), 0);
    assert_eq!(read.read_u8(), Err(MessageError::Incomplete(1)));
    assert_eq!(decode_err(&empty), MessageError::Incomplete(1));
}

#[test]
fn lossy_token() {
    let bytes = [0x01, 0, 0, 0, 9, 0x00, 0x00, 0x04, b'a', 0xFF, 0xC3, b'b'];
    let packet = decode_ok(&bytes);
    match packet.message {
        TunnelMessage::Initiate { association_token } => {
            assert_eq!(association_token, "a\u{FFFD}\u{FFFD}b");
        }
        other => panic!("unexpected message {:?}", other),
    }
}

#[test]
fn reader_primitives() {
    let data = [0x12, 0x34, 0x56, 0x78, 0x9A, 0xBC, 0xDE];
    let mut read = MessageDeserializer::new(&data);
    assert_eq!(read.read_u16(), Ok(0x1234));
    assert_eq!(read.len(), 5);
    assert_eq!(read.read_u32(), Ok(0x5678_9ABC));
    assert_eq!(read.read_u32(), Err(MessageError::Incomplete(4)));
    assert_eq!(read.read_u16(), Err(MessageError::Incomplete(2)));
    assert_eq!(read.read_fixed::<3>(), Err(MessageError::Incomplete(3)));
    assert_eq!(read.read_bytes(2), Err(MessageError::Incomplete(1)));
    assert_eq!(read.len(), 1);
    assert_eq!(read.read_bytes(1), Ok(&[0xDE][..]));
    assert!(read.is_empty());
    assert_eq!(read.capacity(), 7);

    let mut read = MessageDeserializer::new(&data);
    assert_eq!(read.read_fixed::<3>(), Ok([0x12, 0x34, 0x56]));
    assert_eq!(read.read_u8(), Ok(0x78));
    assert_eq!(read.read_bytes(0), Ok(&[][..]));
}

#[test]
fn writer_primitives() {
    let mut write = MessageSerializer::default();
    write.write_u8(0x01);
    write.write_u16(0x0203);
    write.write_u32(0x0405_0607);
    write.write_bytes(&[0x08, 0x09]);
    assert_eq!(write.buffer(), &[1, 2, 3, 4, 5, 6, 7, 8, 9][..]);
    assert_eq!(write.into_inner(), vec![1, 2, 3, 4, 5, 6, 7, 8, 9]);
}

#[test]
fn header_and_packet_read_write() {
    let packet = TunnelPacket {
        header: TunnelMessageHeader { version: 4, tunnel_id: 0x0000_0100 },
        message: TunnelMessage::Initiated { tunnel_id: 2 },
    };
    let mut write = MessageSerializer::default();
    assert_eq!(packet.write(&mut write), Ok(()));
    let bytes = write.into_inner();
    assert_eq!(bytes, vec![4, 0, 0, 1, 0, 1, 0, 0, 0, 2]);
    let mut read = MessageDeserializer::new(&bytes);
    let header = TunnelMessageHeader::read(&mut read).unwrap();
    assert_eq!(header, TunnelMessageHeader { version: 4, tunnel_id: 256 });
    assert!(matches!(TunnelMessage::read(&mut read), Ok(TunnelMessage::Initiated { tunnel_id: 2 })));
    assert!(read.is_empty());
    let mut read = MessageDeserializer::new(&bytes);
    let again = TunnelPacket::read(&mut read).unwrap();
    assert_eq!(again.header.version, 4);
}

#[test]
fn message_type_from_byte() {
    assert_eq!(TunnelMessageType::try_from(0u8), Ok(TunnelMessageType::Initiate));
    assert_eq!(TunnelMessageType::try_from(1u8), Ok(TunnelMessageType::Initiated));
    assert_eq!(TunnelMessageType::try_from(2u8), Ok(TunnelMessageType::Forward));
    assert_eq!(TunnelMessageType::try_from(3u8), Ok(TunnelMessageType::KeepAlive));
    assert_eq!(TunnelMessageType::try_from(4u8), Err(MessageError::UnknownMessageType));
    assert_eq!(TunnelMessageType::Forward.byte(), 2);
}
