//! Frame codec behaviour: header round trips, short-input rejection, and
//! byte-exact frame assembly.

use discord_ipc_rust::opcodes::OpCodes;
use discord_ipc_rust::utils::decode_payload;
use discord_ipc_rust::utils::encode_frame;
use discord_ipc_rust::utils::pack;
use discord_ipc_rust::utils::unpack;
use discord_ipc_rust::DiscordRPCError;

#[test]
fn pack_writes_little_endian_header() {
    let header = pack(1, 5).unwrap();
    assert_eq!(header, vec![1, 0, 0, 0, 5, 0, 0, 0]);
}

#[test]
fn pack_writes_all_four_bytes_of_each_field() {
    let header = pack(0x7856_3412, 0x0102_0304).unwrap();
    assert_eq!(header, vec![0x12, 0x34, 0x56, 0x78, 0x04, 0x03, 0x02, 0x01]);
}

#[test]
fn unpack_reads_little_endian_header() {
    let (opcode, length) = unpack(vec![0x12, 0x34, 0x56, 0x78, 0xff, 0, 0, 0]).unwrap();
    assert_eq!(opcode, 0x7856_3412);
    assert_eq!(length, 255);
}

#[test]
fn header_round_trip_for_various_pairs() {
    let cases: Vec<(u32, u32)> = vec![
        (0, 0),
        (1, 5),
        (4, 1),
        (u32::MAX, 0),
        (0, u32::MAX),
        (u32::MAX, u32::MAX),
        (0xdead_beef, 0x0bad_f00d),
    ];
    for (opcode, length) in cases {
        let header = pack(opcode, length).unwrap();
        assert_eq!(header.len(), 8);
        let (o, l) = unpack(header).unwrap();
        assert_eq!((o, l), (opcode, length));
    }
}

#[test]
fn unpack_rejects_fewer_than_eight_bytes() {
    for k in 0..8 {
        let short = vec![0u8; k];
        assert_eq!(unpack(short), Err(DiscordRPCError::TryFromSlice));
    }
}

#[test]
fn unpack_rejects_more_than_eight_bytes() {
    assert_eq!(unpack(vec![0u8; 9]), Err(DiscordRPCError::TryFromSlice));
}

#[test]
fn encode_frame_is_header_then_payload_with_no_extra_framing() {
    let frame = encode_frame("hi", 3).unwrap();
    assert_eq!(frame, vec![3, 0, 0, 0, 2, 0, 0, 0, b'h', b'i']);
}

#[test]
fn encode_frame_of_empty_payload_is_just_the_header() {
    let frame = encode_frame("", 2).unwrap();
    assert_eq!(frame, vec![2, 0, 0, 0, 0, 0, 0, 0]);
}

#[test]
fn encode_frame_length_counts_utf8_bytes_not_chars() {
    let payload = "\u{e9}"; // two UTF-8 bytes, one char
    let frame = encode_frame(payload, 1).unwrap();
    assert_eq!(frame[4], 2);
    assert_eq!(&frame[8..], payload.as_bytes());
}

#[test]
fn sent_frame_read_back_yields_the_payload() {
    let payload = "{\"cmd\":\"GET_GUILDS\"}";
    let frame = encode_frame(payload, 1).unwrap();
    let (opcode, length) = unpack(frame[0..8].to_vec()).unwrap();
    assert_eq!(opcode, 1);
    assert_eq!(length as usize, frame.len() - 8);
    let text = decode_payload(frame[8..].to_vec()).unwrap();
    assert_eq!(text, payload);
}

#[test]
fn decode_payload_rejects_invalid_utf8() {
    assert_eq!(decode_payload(vec![0xff, 0xfe]), Err(DiscordRPCError::FromUtf8));
}

#[test]
fn decode_payload_accepts_valid_utf8() {
    assert_eq!(decode_payload("ok".as_bytes().to_vec()).unwrap(), "ok");
}

#[test]
fn opcode_values_match_the_wire_protocol() {
    assert_eq!(OpCodes::Handshake.to_u32(), 0);
    assert_eq!(OpCodes::Frame.to_u32(), 1);
    assert_eq!(OpCodes::Close.to_u32(), 2);
    assert_eq!(OpCodes::Ping.to_u32(), 3);
    assert_eq!(OpCodes::Pong.to_u32(), 4);
}

#[test]
fn opcode_from_u32_accepts_exactly_the_five_values() {
    for v in 0..5u32 {
        let op = OpCodes::from_u32(v).unwrap();
        assert_eq!(op.to_u32(), v);
    }
    assert_eq!(OpCodes::from_u32(5), None);
    assert_eq!(OpCodes::from_u32(u32::MAX), None);
}
