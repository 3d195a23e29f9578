use blocknet::{
    decode, decode_body, decode_header, encode, encode_header, Message, MessageHeader,
    MessageType, NetError, HEADER_SIZE, MESSAGE_TYPE_COUNT,
};

fn all_types() -> Vec<MessageType> {
    vec![
        MessageType::RequestForSubscription,
        MessageType::ConfirmRFS,
        MessageType::DenyRFS,
        MessageType::RequestActiveSubscriptions,
        MessageType::ReturnActiveSubscriptions,
        MessageType::PostBlockchain,
        MessageType::RequestBlockchain,
        MessageType::ReturnBlockchain,
        MessageType::RequestResource,
    ]
}

fn message(message_type: MessageType, body: Vec<u8>) -> Message {
    Message::new(message_type, body).unwrap()
}

#[test]
fn header_size_is_forty() {
    assert_eq!(HEADER_SIZE, 40);
}

#[test]
fn ordinals_follow_the_declaration() {
    let types = all_types();
    assert_eq!(types.len(), MESSAGE_TYPE_COUNT as usize);
    for (position, message_type) in types.iter().enumerate() {
        assert_eq!(message_type.ordinal() as usize, position);
        assert_eq!(u8::from(*message_type) as usize, position);
        assert_eq!(MessageType::from_ordinal(position as u8), Some(*message_type));
    }
}

#[test]
fn ordinal_table_is_wire_stable() {
    assert_eq!(MessageType::RequestForSubscription.ordinal(), 0);
    assert_eq!(MessageType::ConfirmRFS.ordinal(), 1);
    assert_eq!(MessageType::DenyRFS.ordinal(), 2);
    assert_eq!(MessageType::RequestActiveSubscriptions.ordinal(), 3);
    assert_eq!(MessageType::ReturnActiveSubscriptions.ordinal(), 4);
    assert_eq!(MessageType::PostBlockchain.ordinal(), 5);
    assert_eq!(MessageType::RequestBlockchain.ordinal(), 6);
    assert_eq!(MessageType::ReturnBlockchain.ordinal(), 7);
    assert_eq!(MessageType::RequestResource.ordinal(), 8);
}

#[test]
fn no_type_has_an_ordinal_from_nine_on() {
    for byte in 9..=255u8 {
        assert_eq!(MessageType::from_ordinal(byte), None);
    }
}

#[test]
fn header_bytes_are_exact() {
    let header = MessageHeader { message_type: MessageType::PostBlockchain, message_size: 12 };
    let mut expected = vec![5u8, 12, 0, 0, 0];
    expected.extend(vec![0u8; 35]);
    assert_eq!(encode_header(&header), expected);
}

#[test]
fn size_is_little_endian() {
    let header =
        MessageHeader { message_type: MessageType::RequestResource, message_size: 0x0102_0304 };
    let bytes = encode_header(&header);
    assert_eq!(&bytes[..5], &[8u8, 0x04, 0x03, 0x02, 0x01]);
    assert_eq!(decode_header(&bytes), Ok(header));
}

#[test]
fn largest_size_survives_the_header() {
    let header = MessageHeader { message_type: MessageType::DenyRFS, message_size: u32::MAX };
    let bytes = encode_header(&header);
    assert_eq!(&bytes[..5], &[2u8, 0xff, 0xff, 0xff, 0xff]);
    assert_eq!(decode_header(&bytes), Ok(header));
}

#[test]
fn frame_bytes_are_exact() {
    let frame = encode(&message(MessageType::ConfirmRFS, vec![0xaa, 0xbb, 0xcc]));
    let mut expected = vec![1u8, 3, 0, 0, 0];
    expected.extend(vec![0u8; 35]);
    expected.extend(vec![0xaa, 0xbb, 0xcc]);
    assert_eq!(frame, expected);
}

#[test]
fn round_trip_of_every_type() {
    for message_type in all_types() {
        for length in [0usize, 1, 12, 300] {
            let body: Vec<u8> = (0..length).map(|i| (i * 7 + 3) as u8).collect();
            let sent = message(message_type, body);
            assert_eq!(decode(&encode(&sent), u32::MAX), Ok(sent.clone()));
            assert_eq!(decode(&sent.serialise(), length as u32), Ok(sent));
        }
    }
}

#[test]
fn no_extra_envelope() {
    for length in [0usize, 1, 5, 255, 256, 70000] {
        let sent = message(MessageType::ReturnBlockchain, vec![9u8; length]);
        let frame = encode(&sent);
        assert_eq!(frame.len(), HEADER_SIZE + length);
        assert_eq!(&frame[HEADER_SIZE..], &sent.body[..]);
    }
}

#[test]
fn truncated_frames_are_detected() {
    let frame = encode(&message(MessageType::PostBlockchain, vec![1u8; 12]));
    for length in HEADER_SIZE..frame.len() {
        assert_eq!(decode(&frame[..length], u32::MAX), Err(NetError::TruncatedBody));
        assert_eq!(decode(&frame[..length], 0), Err(NetError::TruncatedBody));
    }
    assert!(decode(&frame, u32::MAX).is_ok());
}

#[test]
fn short_headers_are_malformed() {
    let frame = encode(&message(MessageType::PostBlockchain, vec![1u8; 12]));
    for length in 0..HEADER_SIZE {
        assert_eq!(decode_header(&frame[..length]), Err(NetError::MalformedHeader));
        assert_eq!(decode(&frame[..length], u32::MAX), Err(NetError::MalformedHeader));
    }
}

#[test]
fn unknown_types_are_rejected() {
    for byte in 9..=255u8 {
        let mut frame = encode(&message(MessageType::RequestForSubscription, vec![4, 5]));
        frame[0] = byte;
        assert_eq!(decode_header(&frame), Err(NetError::MalformedHeader));
        assert_eq!(decode(&frame, u32::MAX), Err(NetError::MalformedHeader));
    }
}

#[test]
fn oversized_bodies_are_refused() {
    let frame = encode(&message(MessageType::RequestBlockchain, vec![6u8; 13]));
    assert_eq!(decode(&frame, 12), Err(NetError::OversizedBody));
    assert!(decode(&frame, 13).is_ok());
}

#[test]
fn reserved_bytes_are_ignored_when_read() {
    let sent = message(MessageType::DenyRFS, vec![1, 2, 3, 4]);
    let mut frame = encode(&sent);
    for index in 5..HEADER_SIZE {
        frame[index] = 0xee;
    }
    assert_eq!(decode(&frame, u32::MAX), Ok(sent));
}

#[test]
fn bytes_after_the_frame_are_left_aside() {
    let sent = message(MessageType::ConfirmRFS, vec![7, 8]);
    let mut bytes = encode(&sent);
    bytes.extend(vec![0x55u8; 9]);
    assert_eq!(decode(&bytes, u32::MAX), Ok(sent));
}

#[test]
fn decode_body_takes_the_declared_length() {
    let header = MessageHeader { message_type: MessageType::ReturnBlockchain, message_size: 3 };
    let decoded = decode_body(&[10, 20, 30, 40], header, 3).unwrap();
    assert_eq!(decoded.header, header);
    assert_eq!(decoded.body, vec![10, 20, 30]);
    assert!(decoded.is_consistent());
    assert_eq!(decode_body(&[10, 20], header, 3), Err(NetError::TruncatedBody));
    assert_eq!(decode_body(&[10, 20], header, 2), Err(NetError::TruncatedBody));
    assert_eq!(decode_body(&[10, 20, 30], header, 2), Err(NetError::OversizedBody));
}

#[test]
fn deserialise_with_header_sets_no_limit() {
    let header = MessageHeader { message_type: MessageType::PostBlockchain, message_size: 2 };
    let decoded = Message::deserialise_with_header(&[1, 2], header);
    assert_eq!(decoded, Ok(Message { header, body: vec![1, 2] }));
    assert_eq!(Message::deserialise_with_header(&[1], header), Err(NetError::TruncatedBody));
}

#[test]
fn an_inconsistent_message_is_encoded_as_it_is() {
    let odd = Message {
        header: MessageHeader { message_type: MessageType::ConfirmRFS, message_size: 5 },
        body: vec![1, 2],
    };
    assert!(!odd.is_consistent());
    let frame = encode(&odd);
    assert_eq!(frame.len(), HEADER_SIZE + 2);
    assert_eq!(frame[1], 5);
    assert_eq!(decode(&frame, u32::MAX), Err(NetError::TruncatedBody));
}

#[test]
fn new_sets_the_size_of_the_body() {
    let made = Message::new(MessageType::RequestResource, vec![3u8; 17]).unwrap();
    assert_eq!(made.header.message_type, MessageType::RequestResource);
    assert_eq!(made.header.message_size, 17);
    assert_eq!(made.body, vec![3u8; 17]);
    assert!(made.is_consistent());
}

#[test]
fn a_clone_is_equal() {
    let sent = message(MessageType::ReturnActiveSubscriptions, vec![1, 2, 3]);
    assert_eq!(sent.clone(), sent);
}
