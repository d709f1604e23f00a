use n3ds_controller::bytes::{push_i32, push_u16, push_u32, read_i16, read_u16, read_u32, ByteOrder};
use n3ds_controller::{N3DSButtons, RecvInput, Vec2, Vec3, MAGIC_NUMBER, RECV_INPUT_SIZE};

fn datagram() -> Vec<u8> {
    vec![
        0x3d, 0x5c, // magic number
        0x00, 0x01, // version
        0x00, 0x00, 0x00, 0x02, // keys up
        0x80, 0x00, 0x00, 0x04, // keys down
        0x12, 0x34, 0x56, 0x78, // keys held
        0x01, 0x40, 0x00, 0xf0, // touchscreen
        0x00, 0x9c, 0xff, 0x64, // circle pad
        0x7f, 0xff, 0x80, 0x00, // C-stick
        0x00, 0x01, 0xff, 0xff, 0xff, 0xfe, // gyroscope
        0x01, 0x00, 0x80, 0x01, 0x00, 0x00, // accelerometer
    ]
}

#[test]
fn every_field_is_read_in_network_order() {
    let input = RecvInput::from_network_bytes(&datagram()).unwrap();
    assert_eq!(
        input,
        RecvInput {
            magic_number: 0x3d5c,
            version: 1,
            keys_up: N3DSButtons(2),
            keys_down: N3DSButtons(0x8000_0004),
            keys_held: N3DSButtons(0x1234_5678),
            touchscreen: Vec2 { x: 320, y: 240 },
            circlepad: Vec2 { x: 156, y: -156 },
            cstick: Vec2 { x: 32767, y: -32768 },
            gyroscope: Vec3 { x: 1, y: -1, z: -2 },
            accelerometer: Vec3 { x: 256, y: -32767, z: 0 },
        }
    );
    assert_eq!(input.magic_number, MAGIC_NUMBER);
}

#[test]
fn only_the_exact_length_is_accepted() {
    assert_eq!(RECV_INPUT_SIZE, 40);
    for length in 0..100usize {
        let parsed = RecvInput::from_network_bytes(&vec![0u8; length]);
        if length == 40 {
            assert_eq!(parsed, Ok(RecvInput::zeroed()));
        } else {
            assert_eq!(parsed, Err("Invalid byte length for RecvInput"));
        }
    }
}

#[test]
fn the_magic_number_is_not_checked_when_reading() {
    let mut bytes = datagram();
    bytes[0] = 0;
    let input = RecvInput::from_network_bytes(&bytes).unwrap();
    assert_eq!(input.magic_number, 0x5c);
}

#[test]
fn different_datagrams_are_different_reports() {
    let first = RecvInput::from_network_bytes(&datagram()).unwrap();
    for place in 0..RECV_INPUT_SIZE {
        let mut bytes = datagram();
        bytes[place] ^= 0x80;
        assert_ne!(RecvInput::from_network_bytes(&bytes).unwrap(), first);
    }
}

#[test]
fn integers_and_bytes() {
    let bytes = [0x12u8, 0x34, 0x56, 0x78, 0xff];
    assert_eq!(read_u16(&bytes, 1), 0x3456);
    assert_eq!(read_u32(&bytes, 1), 0x3456_78ff);
    assert_eq!(read_i16(&[0xff, 0xfe], 0), -2);

    let mut out: Vec<u8> = Vec::new();
    push_u16(&mut out, ByteOrder::Little, 0x1234);
    push_u16(&mut out, ByteOrder::Big, 0x1234);
    assert_eq!(out, vec![0x34, 0x12, 0x12, 0x34]);

    let mut out: Vec<u8> = Vec::new();
    push_u32(&mut out, ByteOrder::Little, 0x1234_5678);
    push_i32(&mut out, ByteOrder::Big, -2);
    push_i32(&mut out, ByteOrder::Little, i32::MIN);
    assert_eq!(
        out,
        vec![0x78, 0x56, 0x34, 0x12, 0xff, 0xff, 0xff, 0xfe, 0, 0, 0, 0x80]
    );
}
