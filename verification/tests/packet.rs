use sonetto_core::packet::request_payload_len;
use sonetto_core::packet::ClientPacket;
use sonetto_core::packet::CmdId;
use sonetto_core::packet::CommandPacket;
use sonetto_core::packet::DecodeError;

fn same(a: &CommandPacket, b: &CommandPacket) -> bool {
    match (a, b) {
        (
            CommandPacket::Reply { cmd_id: c1, body: b1, result_code: r1, up_tag: u1, down_tag: d1 },
            CommandPacket::Reply { cmd_id: c2, body: b2, result_code: r2, up_tag: u2, down_tag: d2 },
        ) => c1 == c2 && b1 == b2 && r1 == r2 && u1 == u2 && d1 == d2,
        (
            CommandPacket::Push { cmd_id: c1, body: b1, down_tag: d1 },
            CommandPacket::Push { cmd_id: c2, body: b2, down_tag: d2 },
        ) => c1 == c2 && b1 == b2 && d1 == d2,
        _ => false,
    }
}

#[test]
fn request_frame_has_the_documented_layout() {
    let packet = ClientPacket { cmd_id: 0x1234, up_tag: 7, data: vec![0xaa, 0xbb, 0xcc] };
    let frame = packet.encode().unwrap();
    assert_eq!(frame, vec![0x12, 0x34, 7, 0, 0, 0, 3, 0xaa, 0xbb, 0xcc]);
}

#[test]
fn request_round_trips() {
    for cmd_id in [0u16, 1, 255, 256, 0x7fff, 0xffff] {
        for len in [0usize, 1, 2, 255, 256, 70000] {
            let data: Vec<u8> = (0..len).map(|i| (i % 251) as u8).collect();
            let packet = ClientPacket { cmd_id, up_tag: (len % 256) as u8, data };
            let frame = packet.encode().unwrap();
            let back = ClientPacket::decode(&frame).unwrap();
            assert_eq!(back.cmd_id, packet.cmd_id);
            assert_eq!(back.up_tag, packet.up_tag);
            assert_eq!(back.data, packet.data);
        }
    }
}

#[test]
fn request_decode_rejects_short_frames() {
    for len in 0..7 {
        let frame = vec![0u8; len];
        assert_eq!(ClientPacket::decode(&frame).err(), Some(DecodeError::Truncated));
    }
}

#[test]
fn request_decode_rejects_a_wrong_length() {
    let frame = vec![0, 1, 2, 0, 0, 0, 5, 1, 2, 3];
    assert_eq!(ClientPacket::decode(&frame).err(), Some(DecodeError::LengthMismatch));
    let huge = vec![0, 1, 2, 0xff, 0xff, 0xff, 0xff, 1];
    assert_eq!(ClientPacket::decode(&huge).err(), Some(DecodeError::LengthMismatch));
    let long = vec![0, 1, 2, 0, 0, 0, 0, 9];
    assert_eq!(ClientPacket::decode(&long).err(), Some(DecodeError::LengthMismatch));
}

#[test]
fn reply_frame_has_the_documented_layout() {
    let reply = CommandPacket::Reply {
        cmd_id: CmdId(0x0102),
        body: vec![9, 8],
        result_code: -2,
        up_tag: 5,
        down_tag: 6,
    };
    assert_eq!(reply.encode().unwrap(), vec![0, 1, 2, 0xff, 0xfe, 5, 6, 0, 0, 0, 2, 9, 8]);
    let push = CommandPacket::Push { cmd_id: CmdId(0x0a0b), body: vec![1], down_tag: 3 };
    assert_eq!(push.encode().unwrap(), vec![1, 0x0a, 0x0b, 3, 0, 0, 0, 1, 1]);
}

#[test]
fn outbound_round_trips() {
    for result_code in [0i16, 1, -1, i16::MIN, i16::MAX, 401] {
        let reply = CommandPacket::Reply {
            cmd_id: CmdId(4242),
            body: vec![1, 2, 3, 4, 5],
            result_code,
            up_tag: 200,
            down_tag: 17,
        };
        let back = CommandPacket::decode(&reply.encode().unwrap()).unwrap();
        assert!(same(&back, &reply));
        assert_eq!(back.cmd_id(), CmdId(4242));
        assert_eq!(back.down_tag(), 17);
    }
    let push = CommandPacket::Push { cmd_id: CmdId(65535), body: Vec::new(), down_tag: 255 };
    let back = CommandPacket::decode(&push.encode().unwrap()).unwrap();
    assert!(same(&back, &push));
}

#[test]
fn outbound_decode_rejects_bad_frames() {
    assert_eq!(CommandPacket::decode(&[]).err(), Some(DecodeError::Truncated));
    assert_eq!(CommandPacket::decode(&[2, 0, 0]).err(), Some(DecodeError::UnknownKind));
    assert_eq!(CommandPacket::decode(&[0, 0, 1, 0, 0, 1, 2, 0, 0, 0]).err(), Some(DecodeError::Truncated));
    assert_eq!(CommandPacket::decode(&[1, 0, 1, 2, 0, 0, 0]).err(), Some(DecodeError::Truncated));
    assert_eq!(
        CommandPacket::decode(&[1, 0, 1, 2, 0, 0, 0, 2, 7]).err(),
        Some(DecodeError::LengthMismatch)
    );
    assert_eq!(
        CommandPacket::decode(&[0, 0, 1, 0, 0, 1, 2, 0, 0, 0, 1]).err(),
        Some(DecodeError::LengthMismatch)
    );
}

#[test]
fn header_announces_the_payload_length() {
    assert_eq!(request_payload_len(&[0, 1, 2, 0, 0, 0, 3]), Ok(3));
    assert_eq!(request_payload_len(&[0, 1, 2, 0, 0, 1, 0, 9, 9]), Ok(256));
    assert_eq!(request_payload_len(&[0, 1, 2, 0, 0x10, 0, 0]), Ok(1 << 20));
    assert_eq!(request_payload_len(&[0, 1, 2, 0, 0x10, 0, 1]), Err(DecodeError::PayloadTooLarge));
    assert_eq!(request_payload_len(&[0, 1, 2, 0xff, 0xff, 0xff, 0xff]), Err(DecodeError::PayloadTooLarge));
    assert_eq!(request_payload_len(&[0, 1, 2, 0, 0, 0]), Err(DecodeError::Truncated));
    assert_eq!(request_payload_len(&[]), Err(DecodeError::Truncated));
}
