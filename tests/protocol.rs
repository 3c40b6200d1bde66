use loded::protocol::{
    LodestarDesktop, LodestarDesktopPacket, LodestarEndPacket, LodestarHandshakePacket,
    LodestarMessage, LodestarPacket, LodestarPacketParsingError, LodestarPacketType,
    LodestarSwitchSourcePacket,
};

fn frame(tag: u64, declared: u64, payload: &[u8]) -> Vec<u8> {
    let mut out = Vec::new();
    out.extend_from_slice(&tag.to_le_bytes());
    out.extend_from_slice(&declared.to_le_bytes());
    out.extend_from_slice(payload);
    out
}

#[test]
fn handshake_encodes_to_scenario_bytes() {
    let msg = LodestarMessage::Handshake(LodestarHandshakePacket::new(1, true));
    let bytes = msg.encode();
    let expected = frame(0, 9, &[0x01, 0, 0, 0, 0, 0, 0, 0, 0x01]);
    assert_eq!(bytes, expected);
}

#[test]
fn desktop_list_encodes_to_scenario_bytes() {
    let list = LodestarDesktopPacket::new(vec![LodestarDesktop::new(7, 1920, 1080)]);
    let payload = LodestarDesktopPacket::into(&list);
    assert_eq!(
        payload,
        vec![
            0x01, 0, 0, 0, 0, 0, 0, 0, 0x07, 0, 0, 0, 0, 0, 0, 0, 0x80, 0x07, 0, 0, 0x38, 0x04,
            0, 0
        ]
    );
    let bytes = LodestarMessage::DesktopList(list).encode();
    assert_eq!(&bytes[0..8], &1u64.to_le_bytes());
    assert_eq!(&bytes[8..16], &24u64.to_le_bytes());
    assert_eq!(&bytes[16..], &payload[..]);
}

#[test]
fn desktop_records_are_packed_sequentially() {
    let list = LodestarDesktopPacket::new(vec![
        LodestarDesktop::new(1, 10, 20),
        LodestarDesktop::new(2, -30, 40),
    ]);
    let payload = LodestarDesktopPacket::into(&list);
    assert_eq!(payload.len(), 8 + 2 * 16);
    assert_eq!(&payload[8..16], &1u64.to_le_bytes());
    assert_eq!(&payload[24..32], &2u64.to_le_bytes());
    assert_eq!(&payload[32..36], &(-30i32).to_le_bytes());
    assert_eq!(&payload[36..40], &40i32.to_le_bytes());
}

fn round_trip(msg: LodestarMessage) {
    let bytes = msg.encode();
    assert_eq!(LodestarMessage::decode(&bytes), Ok(msg));
}

#[test]
fn round_trip_every_variant() {
    round_trip(LodestarMessage::Handshake(LodestarHandshakePacket::new(u64::MAX, false)));
    round_trip(LodestarMessage::Handshake(LodestarHandshakePacket::new(3, true)));
    round_trip(LodestarMessage::SwitchSource(LodestarSwitchSourcePacket::new(42)));
    round_trip(LodestarMessage::End(LodestarEndPacket::new()));
}

#[test]
fn round_trip_desktop_lists_of_zero_one_three() {
    round_trip(LodestarMessage::DesktopList(LodestarDesktopPacket::new(vec![])));
    round_trip(LodestarMessage::DesktopList(LodestarDesktopPacket::new(vec![
        LodestarDesktop::new(7, 1920, 1080),
    ])));
    round_trip(LodestarMessage::DesktopList(LodestarDesktopPacket::new(vec![
        LodestarDesktop::new(0, 800, 600),
        LodestarDesktop::new(1, i32::MIN, i32::MAX),
        LodestarDesktop::new(u64::MAX, -1, 0),
    ])));
}

#[test]
fn handshake_with_wrong_length_is_refused() {
    for len in [0usize, 8, 10, 16] {
        let payload = vec![0u8; len];
        let bytes = frame(0, len as u64, &payload);
        assert_eq!(
            LodestarMessage::decode(&bytes),
            Err(LodestarPacketParsingError::InvalidPacketLength)
        );
    }
    // declared length differs from the canonical one
    let bytes = frame(0, 16, &[1, 0, 0, 0, 0, 0, 0, 0, 1]);
    assert_eq!(
        LodestarMessage::decode(&bytes),
        Err(LodestarPacketParsingError::InvalidPacketLength)
    );
    assert_eq!(
        LodestarHandshakePacket::decode(&[0u8; 10]),
        Err(LodestarPacketParsingError::InvalidPacketLength)
    );
}

#[test]
fn desktop_list_with_wrong_byte_count_is_refused() {
    // count says two records, only one present
    let mut payload = 2u64.to_le_bytes().to_vec();
    payload.extend_from_slice(&[0u8; 16]);
    assert_eq!(
        LodestarDesktopPacket::decode(&payload),
        Err(LodestarPacketParsingError::InvalidPacketLength)
    );
    payload.push(0);
    assert_eq!(
        LodestarDesktopPacket::decode(&payload),
        Err(LodestarPacketParsingError::InvalidPacketLength)
    );
    assert_eq!(
        LodestarDesktopPacket::decode(&[0u8; 5]),
        Err(LodestarPacketParsingError::InvalidPacketLength)
    );
    // the declared length is not checked for this kind
    let mut ok = 1u64.to_le_bytes().to_vec();
    ok.extend_from_slice(&[0u8; 16]);
    let bytes = frame(1, 999, &ok);
    assert!(LodestarMessage::decode(&bytes).is_ok());
}

#[test]
fn unknown_tag_and_bad_flag_are_invalid_fields() {
    let bytes = frame(4, 0, &[]);
    assert_eq!(LodestarMessage::decode(&bytes), Err(LodestarPacketParsingError::InvalidField));
    let bytes = frame(0, 9, &[1, 0, 0, 0, 0, 0, 0, 0, 2]);
    assert_eq!(LodestarMessage::decode(&bytes), Err(LodestarPacketParsingError::InvalidField));
}

#[test]
fn short_frame_is_refused() {
    assert_eq!(
        LodestarPacket::from_bytes(&[0u8; 15]),
        Err(LodestarPacketParsingError::InvalidPacketLength)
    );
}

#[test]
fn switch_source_and_end_lengths() {
    assert_eq!(
        LodestarMessage::decode(&frame(2, 8, &9u64.to_le_bytes())),
        Ok(LodestarMessage::SwitchSource(LodestarSwitchSourcePacket::new(9)))
    );
    assert_eq!(
        LodestarMessage::decode(&frame(2, 7, &9u64.to_le_bytes())),
        Err(LodestarPacketParsingError::InvalidPacketLength)
    );
    assert_eq!(
        LodestarMessage::decode(&frame(3, 0, &[1])),
        Err(LodestarPacketParsingError::InvalidPacketLength)
    );
    assert_eq!(
        LodestarMessage::decode(&frame(3, 1, &[])),
        Err(LodestarPacketParsingError::InvalidPacketLength)
    );
}

#[test]
fn packet_frame_fields() {
    let p = LodestarPacket::new(LodestarPacketType::SwitchSource, 5u64.to_le_bytes().to_vec());
    assert_eq!(p.packet_length, 8);
    let bytes = p.to_bytes();
    let back = LodestarPacket::from_bytes(&bytes).unwrap();
    assert_eq!(back, p);
    assert_eq!(
        back.parse_packet(),
        Ok(LodestarMessage::SwitchSource(LodestarSwitchSourcePacket::new(5)))
    );
    assert_eq!(LodestarPacketType::from_tag(3), Some(LodestarPacketType::End));
    assert_eq!(LodestarPacketType::DesktopList.tag(), 1);
}

#[test]
fn desktop_packet_accessors() {
    let list = LodestarDesktopPacket::new(vec![
        LodestarDesktop::new(4, 1, 2),
        LodestarDesktop::new(5, 3, 4),
    ]);
    assert_eq!(list.desktop_count(), 2);
    assert_eq!(list.get_desktops()[1].loded_id, 5);
}
