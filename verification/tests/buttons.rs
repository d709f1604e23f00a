use n3ds_controller::N3DSButtons;

/// Every single-bit getter, in the order of the bits below.
fn read_all(buttons: N3DSButtons) -> Vec<bool> {
    vec![
        buttons.a(),
        buttons.b(),
        buttons.select(),
        buttons.start(),
        buttons.dpad_right(),
        buttons.dpad_left(),
        buttons.dpad_up(),
        buttons.dpad_down(),
        buttons.r(),
        buttons.l(),
        buttons.x(),
        buttons.y(),
        buttons.zl(),
        buttons.zr(),
        buttons.touch(),
        buttons.cstick_right(),
        buttons.cstick_left(),
        buttons.cstick_up(),
        buttons.cstick_down(),
        buttons.cpad_right(),
        buttons.cpad_left(),
        buttons.cpad_up(),
        buttons.cpad_down(),
    ]
}

const BITS: [u32; 23] = [
    0, 1, 2, 3, 4, 5, 6, 7, 8, 9, 10, 11, 14, 15, 20, 24, 25, 26, 27, 28, 29, 30, 31,
];

#[test]
fn each_button_answers_to_its_own_bit_alone() {
    for bit in 0..32u32 {
        let read = read_all(N3DSButtons(1 << bit));
        for (place, own) in BITS.iter().enumerate() {
            assert_eq!(read[place], *own == bit, "bit {}, getter {}", bit, place);
        }
    }
}

#[test]
fn no_button_and_all_buttons() {
    assert!(read_all(N3DSButtons(0)).iter().all(|pressed| !pressed));
    assert!(read_all(N3DSButtons(u32::MAX)).iter().all(|pressed| *pressed));
}

#[test]
fn directions_come_from_dpad_or_circle_pad() {
    for bit in 0..32u32 {
        let buttons = N3DSButtons(1 << bit);
        assert_eq!(buttons.up(), bit == 6 || bit == 30);
        assert_eq!(buttons.down(), bit == 7 || bit == 31);
        assert_eq!(buttons.left(), bit == 5 || bit == 29);
        assert_eq!(buttons.right(), bit == 4 || bit == 28);
    }
}

#[test]
fn composite_masks() {
    assert_eq!(N3DSButtons::KEY_UP, 0x4000_0040);
    assert_eq!(N3DSButtons::KEY_DOWN, 0x8000_0080);
    assert_eq!(N3DSButtons::KEY_LEFT, 0x2000_0020);
    assert_eq!(N3DSButtons::KEY_RIGHT, 0x1000_0010);
    assert_eq!(N3DSButtons::KEY_ZR, 0x8000);
}
