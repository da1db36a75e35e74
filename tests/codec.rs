use vibelink::codec::{BleUtil, Command};

const ADDRESS: [u8; 5] = [0x77, 0x62, 0x4D, 0x53, 0x45];

#[test]
fn invert_8_reverses_bits() {
    assert_eq!(BleUtil::invert_8(0x01), 0x80);
    assert_eq!(BleUtil::invert_8(0x71), 0x8E);
    assert_eq!(BleUtil::invert_8(0x0F), 0xF0);
    assert_eq!(BleUtil::invert_8(0x00), 0x00);
    assert_eq!(BleUtil::invert_8(0xFF), 0xFF);
}

#[test]
fn invert_8_round_trips_every_byte() {
    for x in 0..=255u8 {
        assert_eq!(BleUtil::invert_8(BleUtil::invert_8(x)), x);
    }
}

#[test]
fn invert_16_reverses_bits() {
    assert_eq!(BleUtil::invert_16(0x0001), 0x8000);
    assert_eq!(BleUtil::invert_16(0x1234), 0x2C48);
    assert_eq!(BleUtil::invert_16(0xFFFF), 0xFFFF);
}

#[test]
fn invert_16_round_trips() {
    for x in [0u16, 1, 0x1234, 0x8000, 0xABCD, 0xFFFE, 0x7777] {
        assert_eq!(BleUtil::invert_16(BleUtil::invert_16(x)), x);
    }
}

#[test]
fn crc16_known_values() {
    assert_eq!(BleUtil::check_crc16(&ADDRESS, &[0x00]), 0x8308);
    assert_eq!(BleUtil::check_crc16(&ADDRESS, &[0x00, 0x00, 0x00]), 0x7714);
}

#[test]
fn crc16_is_deterministic() {
    let a = BleUtil::check_crc16(&ADDRESS, &[1, 2, 3, 4]);
    let b = BleUtil::check_crc16(&ADDRESS, &[1, 2, 3, 4]);
    assert_eq!(a, b);
}

#[test]
fn whitening_init_seeds() {
    let mut ctx = [0u8; 7];
    BleUtil::whitening_init(0x25, &mut ctx);
    assert_eq!(ctx, [1, 1, 0, 0, 1, 0, 1]);
    BleUtil::whitening_init(0x3F, &mut ctx);
    assert_eq!(ctx, [1, 1, 1, 1, 1, 1, 1]);
}

#[test]
fn whitening_encode_from_offset_zero() {
    let mut ctx = [0u8; 7];
    BleUtil::whitening_init(0x25, &mut ctx);
    let mut result = [0u8; 4];
    BleUtil::whitening_encode(&[0, 0, 0, 0], 4, &mut ctx, 0, &mut result);
    assert_eq!(result, [0x8D, 0xD2, 0x57, 0xA1]);
    assert_eq!(ctx, [1, 0, 1, 0, 1, 0, 1]);
}

#[test]
fn whitening_encode_copies_then_whitens_at_offset() {
    let mut ctx = [0u8; 7];
    BleUtil::whitening_init(0x3F, &mut ctx);
    let mut result = [9u8, 9, 9, 9];
    BleUtil::whitening_encode(&[1, 2, 3], 2, &mut ctx, 1, &mut result);
    assert_eq!(result, [0x01, 0xC5, 0x84, 0x09]);
    assert_eq!(ctx, [1, 0, 0, 0, 0, 1, 0]);
}

#[test]
fn rf_payload_known_vector_for_off() {
    let mut result = [0u8; 11];
    BleUtil::get_rf_payload(&ADDRESS, &[0x00, 0x00, 0x00], &mut result);
    assert_eq!(result, [0x6D, 0xB6, 0x43, 0xCE, 0x97, 0xFE, 0x42, 0x7C, 0xE5, 0x1D, 0xFE]);
}

#[test]
fn rf_payload_same_on_every_run() {
    let mut first = [0u8; 11];
    let mut second = [0u8; 11];
    BleUtil::get_rf_payload(&ADDRESS, &[0x00, 0x00, 0x00], &mut first);
    BleUtil::get_rf_payload(&ADDRESS, &[0x00, 0x00, 0x00], &mut second);
    assert_eq!(first, second);
}

#[test]
fn rf_payload_leaves_bytes_past_the_frame() {
    let mut result = [0xAAu8; 13];
    BleUtil::get_rf_payload(&ADDRESS, &[0x00], &mut result);
    assert_eq!(&result[..11], &[0x6D, 0xB6, 0x43, 0xCE, 0x97, 0xFE, 0x42, 0x7C, 0xE5, 0x15, 0x7D]);
    assert_eq!(&result[11..], &[0xAA, 0xAA]);
}

#[test]
fn ble_command_byte() {
    let frame = BleUtil::get_ble_command(&ADDRESS, Command::Byte(5));
    assert_eq!(frame, vec![0x6D, 0xB6, 0x43, 0xCE, 0x97, 0xFE, 0x42, 0x7C, 0xE0, 0xB8, 0x2A]);
}

#[test]
fn ble_command_raw_replaces_tail() {
    let frame = BleUtil::get_ble_command(&ADDRESS, Command::Raw([0xE6, 0x00, 0x00]));
    assert_eq!(frame, vec![0x6D, 0xB6, 0x43, 0xCE, 0x97, 0xFE, 0x42, 0x7C, 0xE6, 0x00, 0x00]);
}
