use exodus::error::ErrorKind;
use exodus::network_message::NetworkMessage;
use exodus::protocol::ProtocolCode;

#[test]
fn network_message_write_u8() {
    let mut msg = NetworkMessage::default();
    msg.write_u8(1);
    msg.write_u8(2);
    msg.write_u8(3);
    msg.reset();

    assert_eq!(msg.read_u8().unwrap(), 1);
    assert_eq!(msg.read_u8().unwrap(), 2);
    assert_eq!(msg.read_u8().unwrap(), 3);
}

#[test]
fn network_message_write_u16() {
    let mut msg = NetworkMessage::default();
    msg.write_u16(1);
    msg.write_u16(2);
    msg.write_u16(3);
    msg.reset();

    assert_eq!(msg.read_u16().unwrap(), 1);
    assert_eq!(msg.read_u16().unwrap(), 2);
    assert_eq!(msg.read_u16().unwrap(), 3);
}

#[test]
fn network_message_write_u32() {
    let mut msg = NetworkMessage::default();
    msg.write_u32(1);
    msg.write_u32(2);
    msg.write_u32(3);
    msg.reset();

    assert_eq!(msg.read_u32().unwrap(), 1);
    assert_eq!(msg.read_u32().unwrap(), 2);
    assert_eq!(msg.read_u32().unwrap(), 3);
}

#[test]
fn network_message_write_u64() {
    let mut msg = NetworkMessage::default();
    msg.write_u64(1);
    msg.write_u64(2);
    msg.write_u64(3);
    msg.reset();

    assert_eq!(msg.read_u64().unwrap(), 1);
    assert_eq!(msg.read_u64().unwrap(), 2);
    assert_eq!(msg.read_u64().unwrap(), 3);
}

#[test]
fn network_message_write_i8() {
    let mut msg = NetworkMessage::default();
    msg.write_i8(1);
    msg.write_i8(2);
    msg.write_i8(3);
    msg.reset();

    assert_eq!(msg.read_i8().unwrap(), 1);
    assert_eq!(msg.read_i8().unwrap(), 2);
    assert_eq!(msg.read_i8().unwrap(), 3);
}

#[test]
fn network_message_write_i16() {
    let mut msg = NetworkMessage::default();
    msg.write_i16(1);
    msg.write_i16(2);
    msg.write_i16(3);
    msg.reset();

    assert_eq!(msg.read_i16().unwrap(), 1);
    assert_eq!(msg.read_i16().unwrap(), 2);
    assert_eq!(msg.read_i16().unwrap(), 3);
}

#[test]
fn network_message_write_i32() {
    let mut msg = NetworkMessage::default();
    msg.write_i32(1);
    msg.write_i32(2);
    msg.write_i32(3);
    msg.reset();

    assert_eq!(msg.read_i32().unwrap(), 1);
    assert_eq!(msg.read_i32().unwrap(), 2);
    assert_eq!(msg.read_i32().unwrap(), 3);
}

#[test]
fn network_message_write_i64() {
    let mut msg = NetworkMessage::default();
    msg.write_i64(1);
    msg.write_i64(2);
    msg.write_i64(3);
    msg.reset();

    assert_eq!(msg.read_i64().unwrap(), 1);
    assert_eq!(msg.read_i64().unwrap(), 2);
    assert_eq!(msg.read_i64().unwrap(), 3);
}

#[test]
fn every_type_reads_back_in_sequence() {
    let mut msg = NetworkMessage::default();
    msg.write_u8(0xfe);
    msg.write_u16(0xbeef);
    msg.write_u32(0xdead_beef);
    msg.write_u64(0x0123_4567_89ab_cdef);
    msg.write_i8(-5);
    msg.write_i16(-1234);
    msg.write_i32(i32::MIN);
    msg.write_i64(-9_000_000_000);
    msg.write_u32(1.5f32.to_bits());
    msg.write_u64((-2.25f64).to_bits());
    msg.write_string_utf8("héllo");
    msg.write_string_utf8("");
    msg.write_string_utf16("wörld ✓");
    msg.write_string_utf16("");
    msg.reset();

    assert_eq!(msg.read_u8().unwrap(), 0xfe);
    assert_eq!(msg.read_u16().unwrap(), 0xbeef);
    assert_eq!(msg.read_u32().unwrap(), 0xdead_beef);
    assert_eq!(msg.read_u64().unwrap(), 0x0123_4567_89ab_cdef);
    assert_eq!(msg.read_i8().unwrap(), -5);
    assert_eq!(msg.read_i16().unwrap(), -1234);
    assert_eq!(msg.read_i32().unwrap(), i32::MIN);
    assert_eq!(msg.read_i64().unwrap(), -9_000_000_000);
    assert_eq!(f32::from_bits(msg.read_u32().unwrap()), 1.5f32);
    assert_eq!(f64::from_bits(msg.read_u64().unwrap()), -2.25f64);
    assert_eq!(msg.read_string_utf8().unwrap(), "héllo");
    assert_eq!(msg.read_string_utf8().unwrap(), "");
    assert_eq!(msg.read_string_utf16().unwrap(), "wörld ✓");
    assert_eq!(msg.read_string_utf16().unwrap(), "");
    assert_eq!(msg.read_u8(), Err(ErrorKind::NETWORKMESSAGE_OVERFLOW));
}

#[test]
fn values_are_little_endian() {
    let mut msg = NetworkMessage::default();
    msg.write_u32(0x0403_0201);
    msg.write_i16(-2);
    msg.write_u64(0x0807_0605_0403_0201);
    assert_eq!(
        msg.bytes().clone(),
        vec![1, 2, 3, 4, 0xfe, 0xff, 1, 2, 3, 4, 5, 6, 7, 8]
    );
}

#[test]
fn string_encodings_on_the_wire() {
    let mut msg = NetworkMessage::default();
    msg.write_string_utf8("ab");
    msg.write_string_utf16("é");
    assert_eq!(msg.bytes().clone(), vec![2, 0, 0, 0, b'a', b'b', 1, 0, 0, 0, 0xe9, 0]);
}

#[test]
fn code_stands_at_offset_zero_either_way() {
    let mut first = NetworkMessage::new(ProtocolCode::ProtocolGPUInfo);
    first.write_u32(77);
    first.write_string_utf8("payload");

    let mut second = NetworkMessage::default();
    second.write_u32(77);
    second.write_string_utf8("payload");
    second.write_protocol(ProtocolCode::ProtocolGPUInfo.value());

    assert_eq!(first.bytes().clone(), second.bytes().clone());
    assert_eq!(first.bytes()[0..4].to_vec(), vec![3, 0, 0, 0]);
    assert_eq!(first.code(), Ok(3));
    assert_eq!(second.get_protocol(), Ok(3));
}

#[test]
fn negative_code_is_prepended() {
    let mut msg = NetworkMessage::default();
    msg.write_u8(9);
    msg.write_protocol(-1);
    assert_eq!(msg.bytes().clone(), vec![0xff, 0xff, 0xff, 0xff, 9]);
    assert_eq!(msg.code(), Ok(-1));
    assert_eq!(msg.get_protocol(), Ok(0xffff_ffff));
}

#[test]
fn code_of_short_message_fails() {
    let mut msg = NetworkMessage::default();
    msg.write_u16(1);
    assert_eq!(msg.code(), Err(ErrorKind::NETWORKMESSAGE_FAILED));
    assert_eq!(msg.get_protocol(), Err(ErrorKind::NETWORKMESSAGE_OVERFLOW));
}

#[test]
fn empty_and_overflow_are_distinct() {
    let mut empty = NetworkMessage::default();
    assert_eq!(empty.read_u8(), Err(ErrorKind::NETWORKMESSAGE_EMPTY));
    assert_eq!(empty.read_u64(), Err(ErrorKind::NETWORKMESSAGE_EMPTY));
    assert_eq!(empty.read_string_utf8(), Err(ErrorKind::NETWORKMESSAGE_EMPTY));

    let mut short = NetworkMessage::default();
    short.write_u16(5);
    short.reset();
    assert_eq!(short.read_u32(), Err(ErrorKind::NETWORKMESSAGE_OVERFLOW));
    assert_eq!(short.get_index(), 0);
    assert_eq!(short.read_u16(), Ok(5));
}

#[test]
fn string_longer_than_message_overflows() {
    let mut msg = NetworkMessage::default();
    msg.write_u32(10);
    msg.write_u8(b'x');
    msg.reset();
    assert_eq!(msg.read_string_utf8(), Err(ErrorKind::NETWORKMESSAGE_OVERFLOW));
    assert_eq!(msg.get_index(), 0);
    msg.reset();
    assert_eq!(msg.read_string_utf16(), Err(ErrorKind::NETWORKMESSAGE_OVERFLOW));
}

#[test]
fn invalid_text_fails_to_decode() {
    let mut msg = NetworkMessage::default();
    msg.write_u32(1);
    msg.write_u8(0xff);
    msg.reset();
    assert_eq!(msg.read_string_utf8(), Err(ErrorKind::NETWORKMESSAGE_FAILED));

    let mut units = NetworkMessage::default();
    units.write_u32(1);
    units.write_u16(0xd800);
    units.reset();
    assert_eq!(units.read_string_utf16(), Err(ErrorKind::NETWORKMESSAGE_FAILED));
}

#[test]
fn read_bytes_and_utf8_string() {
    let mut msg = NetworkMessage::default();
    msg.write_bytes(&[1, 2, 3]);
    msg.write_bytes("hié".as_bytes());
    msg.reset();
    assert_eq!(msg.read_bytes(3), Ok(vec![1, 2, 3]));
    assert_eq!(msg.read_string(4).unwrap(), "hié");
    assert_eq!(msg.get_index(), 7);
    assert_eq!(msg.read_bytes(1), Err(ErrorKind::NETWORKMESSAGE_OVERFLOW));
}

#[test]
fn read_string_rejects_invalid_utf8() {
    let mut msg = NetworkMessage::default();
    msg.write_bytes(&[b'h', 0xe9]);
    msg.reset();
    assert_eq!(msg.read_string(2), Err(ErrorKind::NETWORKMESSAGE_FAILED));
    assert_eq!(msg.get_index(), 0);
    assert_eq!(msg.read_string(1).unwrap(), "h");
    assert_eq!(msg.read_string(2), Err(ErrorKind::NETWORKMESSAGE_OVERFLOW));
}

#[test]
fn received_message_reads_after_its_code() {
    let mut sent = NetworkMessage::new(ProtocolCode::ProtocolGPUInfo);
    sent.write_i32(42);
    let mut received = NetworkMessage::from_bytes(sent.bytes().clone());
    assert_eq!(received.get_index(), 4);
    assert_eq!(received.code(), Ok(3));
    assert_eq!(received.read_i32(), Ok(42));
}

#[test]
fn clear_empties_the_message() {
    let mut msg = NetworkMessage::new(ProtocolCode::ProtocolNone);
    msg.write_u64(1);
    msg.clear();
    assert!(msg.bytes().is_empty());
    assert_eq!(msg.get_index(), 0);
    msg.get_buffer().push(7);
    assert_eq!(msg.read_u8(), Ok(7));
}

#[test]
fn surrogate_pairs_round_trip() {
    let mut msg = NetworkMessage::default();
    msg.write_string_utf16("a😀");
    assert_eq!(msg.bytes().clone(), vec![3, 0, 0, 0, b'a', 0, 0x3d, 0xd8, 0x00, 0xde]);
    msg.reset();
    assert_eq!(msg.read_string_utf16().unwrap(), "a😀");
}
