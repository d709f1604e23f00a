use n3ds_controller::axis::{map_vertical_axis, AXIS_MAX, AXIS_MIN};
use n3ds_controller::bytes::ByteOrder;
use n3ds_controller::controller::{setup_commands, SetupStep};
use n3ds_controller::event::InputEvent;
use n3ds_controller::uinput::{Argument, DeviceCommand, InputAbsInfo, UinputAbsSetup};
use n3ds_controller::{
    map_axis_i16_to_i32, N3DSButtons, RecvInput, Vec2, VirtualXboxController,
};

fn report(held: u32, circlepad: (i16, i16), cstick: (i16, i16)) -> RecvInput {
    RecvInput {
        keys_held: N3DSButtons(held),
        circlepad: Vec2 { x: circlepad.0, y: circlepad.1 },
        cstick: Vec2 { x: cstick.0, y: cstick.1 },
        ..RecvInput::zeroed()
    }
}

fn events_of(input: &RecvInput) -> Vec<(u16, u16, i32)> {
    assert!(VirtualXboxController::accepts(input));
    VirtualXboxController::update_from_input(input)
        .iter()
        .map(|event: &InputEvent| (event.type_, event.code, event.value))
        .collect()
}

#[test]
fn absolute_positions() {
    assert_eq!(map_axis_i16_to_i32(0), -32768);
    assert_eq!(map_axis_i16_to_i32(127), 0);
    assert_eq!(map_axis_i16_to_i32(128), 0);
    assert_eq!(map_axis_i16_to_i32(255), 32767);
    assert_eq!(map_axis_i16_to_i32(126), -258);
    assert_eq!(map_axis_i16_to_i32(129), 258);
    assert_eq!(map_axis_i16_to_i32(64), -16254);
    assert_eq!(map_axis_i16_to_i32(192), 16512);
}

#[test]
fn signed_deflections() {
    assert_eq!(map_axis_i16_to_i32(-1), -128);
    assert_eq!(map_axis_i16_to_i32(-255), -32640);
    assert_eq!(map_axis_i16_to_i32(-256), -32768);
    assert_eq!(map_axis_i16_to_i32(256), 32767);
    assert_eq!(map_axis_i16_to_i32(i16::MAX), AXIS_MAX);
    assert_eq!(map_axis_i16_to_i32(i16::MIN), AXIS_MIN);
}

#[test]
fn scaling_is_monotone_on_both_kinds_of_positions() {
    for value in i16::MIN..i16::MAX {
        if value != -1 {
            assert!(map_axis_i16_to_i32(value) <= map_axis_i16_to_i32(value + 1));
        }
    }
}

#[test]
fn vertical_positions() {
    assert_eq!(map_vertical_axis(0), -32768);
    assert_eq!(map_vertical_axis(127), 0);
    assert_eq!(map_vertical_axis(128), 0);
    assert_eq!(map_vertical_axis(255), 32767);
    assert_eq!(map_vertical_axis(-1), 256);
    assert_eq!(map_vertical_axis(-100), 12928);
    assert_eq!(map_vertical_axis(256), -32640);
    assert_eq!(map_vertical_axis(257), -32768);
    assert_eq!(map_vertical_axis(-32766), 32767);
}

#[test]
fn a_report_with_every_field_zero() {
    assert_eq!(
        events_of(&report(0, (0, 0), (0, 0))),
        vec![
            (1, 0x130, 0),
            (1, 0x131, 0),
            (1, 0x134, 0),
            (1, 0x133, 0),
            (1, 0x136, 0),
            (1, 0x137, 0),
            (3, 2, 0),
            (3, 5, 0),
            (3, 0x10, 0),
            (3, 0x11, 0),
            (1, 0x13a, 0),
            (1, 0x13b, 0),
            (3, 0, -32768),
            (3, 1, -32768),
            (3, 3, -32768),
            (3, 4, -32768),
            (0, 0, 0),
        ]
    );
}

#[test]
fn each_held_button_moves_one_event() {
    let rest = events_of(&report(0, (0, 0), (0, 0)));
    let expected: [(u32, usize, i32); 14] = [
        (1, 0, 1),    // B
        (0, 1, 1),    // A
        (10, 2, 1),   // X
        (11, 3, 1),   // Y
        (9, 4, 1),    // L
        (8, 5, 1),    // R
        (14, 6, 255), // ZL
        (15, 7, 255), // ZR
        (4, 8, 1),    // D-pad right
        (5, 8, -1),   // D-pad left
        (7, 9, 1),    // D-pad down
        (6, 9, -1),   // D-pad up
        (2, 10, 1),   // SELECT
        (3, 11, 1),   // START
    ];
    for bit in 0..32u32 {
        let mut wanted = rest.clone();
        for (own, place, value) in expected {
            if own == bit {
                wanted[place].2 = value;
            }
        }
        assert_eq!(events_of(&report(1 << bit, (0, 0), (0, 0))), wanted, "bit {}", bit);
    }
}

#[test]
fn opposite_directions_cancel() {
    let events = events_of(&report(0xf0, (0, 0), (0, 0)));
    assert_eq!(events[8], (3, 0x10, 0));
    assert_eq!(events[9], (3, 0x11, 0));
}

#[test]
fn corners_of_the_sticks() {
    let axes = |input: RecvInput| -> Vec<i32> {
        events_of(&input)[12..16].iter().map(|event| event.2).collect()
    };
    assert_eq!(axes(report(0, (0, 0), (255, 255))), vec![-32768, -32768, 32767, 32767]);
    assert_eq!(axes(report(0, (255, 0), (0, 255))), vec![32767, -32768, -32768, 32767]);
    assert_eq!(axes(report(0, (127, 128), (128, 127))), vec![0, 0, 0, 0]);
}

#[test]
fn deflections_of_the_sticks() {
    let events = events_of(&report(0, (-156, -156), (-300, 300)));
    assert_eq!(events[12], (3, 0, -19968));
    assert_eq!(events[13], (3, 1, 20096));
    assert_eq!(events[14], (3, 3, -32768));
    assert_eq!(events[15], (3, 4, -32768));
}

#[test]
fn only_held_buttons_and_sticks_count() {
    let mut input = report(0x0f, (3, 4), (5, 6));
    let before = events_of(&input);
    input.keys_up = N3DSButtons(u32::MAX);
    input.keys_down = N3DSButtons(u32::MAX);
    input.touchscreen = Vec2 { x: 9, y: 9 };
    input.gyroscope.x = 7;
    input.accelerometer.z = -7;
    input.version = 12;
    input.keys_held = N3DSButtons(0x0f | !0xcfff);
    assert_eq!(events_of(&input), before);
}

#[test]
fn lowest_positions_that_can_be_flipped() {
    let events = events_of(&report(0, (0, -32766), (0, -32766)));
    assert_eq!(events[13], (3, 1, 32767));
    assert!(!VirtualXboxController::accepts(&report(0, (0, -32767), (0, 0))));
    assert!(!VirtualXboxController::accepts(&report(0, (0, 0), (0, -32767))));
    assert!(!VirtualXboxController::accepts(&report(0, (0, -32768), (0, 0))));
    assert!(VirtualXboxController::accepts(&report(0, (-32768, 32767), (-32768, 32767))));
}

#[test]
fn setup_enables_everything_in_order() {
    let commands = setup_commands();
    assert_eq!(commands.len(), 33);
    assert_eq!(commands[0], DeviceCommand::Open);
    let enabled: Vec<(u32, u32)> = commands
        .iter()
        .filter_map(|command| match command {
            DeviceCommand::SetBit { request, value } => Some((*request, *value)),
            _ => None,
        })
        .collect();
    let mut wanted: Vec<(u32, u32)> = vec![(0x40045564, 1), (0x40045564, 3), (0x40045564, 0)];
    for button in [0x130, 0x131, 0x134, 0x133, 0x136, 0x137, 0x13a, 0x13b, 0x13c, 0x13d, 0x13e] {
        wanted.push((0x40045565, button));
    }
    for axis in [0, 1, 2, 3, 4, 5, 0x10, 0x11] {
        wanted.push((0x40045567, axis));
    }
    assert_eq!(enabled, wanted);
}

#[test]
fn setup_declares_the_axes() {
    let ranges: Vec<(u16, i32, i32, i32)> = setup_commands()
        .iter()
        .filter_map(|command| match command {
            DeviceCommand::AbsSetup(setup) => Some((
                setup.code,
                setup.absinfo.minimum,
                setup.absinfo.maximum,
                setup.absinfo.flat,
            )),
            _ => None,
        })
        .collect();
    assert_eq!(
        ranges,
        vec![
            (0, -32768, 32767, 4096),
            (1, -32768, 32767, 4096),
            (3, -32768, 32767, 4096),
            (4, -32768, 32767, 4096),
            (2, 0, 255, 0),
            (5, 0, 255, 0),
            (0x10, -1, 1, 0),
            (0x11, -1, 1, 0),
        ]
    );
}

#[test]
fn setup_declares_the_identity_and_creates() {
    let commands = setup_commands();
    let DeviceCommand::DevSetup(setup) = &commands[31] else {
        panic!("no identity");
    };
    assert_eq!(setup.id.bustype, 3);
    assert_eq!(setup.id.vendor, 0x045e);
    assert_eq!(setup.id.product, 0x028e);
    assert_eq!(setup.id.version, 0x0114);
    assert_eq!(&setup.name[..20], b"Xbox 360 Controller\0");
    assert!(setup.name[20..].iter().all(|byte| *byte == 0));
    assert_eq!(setup.ff_effects_max, 0);
    assert_eq!(commands[32], DeviceCommand::Create);
}

#[test]
fn setup_steps_end_with_the_controller() {
    let mut setup = VirtualXboxController::new(7);
    let mut issued = 0;
    let controller = loop {
        match setup.next_step(true) {
            (SetupStep::Issue(_), Some(rest)) => {
                issued += 1;
                setup = rest;
            }
            (SetupStep::Ready(controller), None) => break controller,
            _ => panic!("the setup ended early"),
        }
    };
    assert_eq!(issued, 33);
    assert_eq!(controller.controller_id, 7);
    assert_eq!(controller.destroy(), DeviceCommand::Destroy);
}

#[test]
fn a_failed_command_ends_the_setup() {
    for succeeding in 0..34usize {
        let mut setup = VirtualXboxController::new(7);
        for _ in 0..succeeding.min(33) {
            setup = setup.next_step(true).1.unwrap();
        }
        assert_eq!(setup.next_step(false), (SetupStep::Failed, None));
    }
}

#[test]
fn requests_of_commands() {
    let order = ByteOrder::Little;
    assert_eq!(DeviceCommand::Open.ioctl(order), None);
    assert_eq!(DeviceCommand::Create.ioctl(order), Some((0x5501, Argument::Nothing)));
    assert_eq!(DeviceCommand::Destroy.ioctl(order), Some((0x5502, Argument::Nothing)));
    assert_eq!(
        DeviceCommand::SetBit { request: 0x40045564, value: 3 }.ioctl(order),
        Some((0x40045564, Argument::Value(3)))
    );
}

#[test]
fn records_have_the_size_that_their_request_announces() {
    for command in setup_commands() {
        for order in [ByteOrder::Little, ByteOrder::Big] {
            if let Some((request, Argument::Record(bytes))) = command.ioctl(order) {
                assert_eq!(bytes.len(), ((request >> 16) & 0x3fff) as usize);
            }
        }
    }
}

#[test]
fn record_of_an_axis() {
    let setup = UinputAbsSetup {
        code: 0x0102,
        absinfo: InputAbsInfo {
            value: 1,
            minimum: -2,
            maximum: 3,
            fuzz: 4,
            flat: 4096,
            resolution: 6,
        },
    };
    assert_eq!(
        setup.to_record(ByteOrder::Little),
        vec![
            2, 1, 0, 0, 1, 0, 0, 0, 0xfe, 0xff, 0xff, 0xff, 3, 0, 0, 0, 4, 0, 0, 0, 0, 0x10, 0, 0,
            6, 0, 0, 0
        ]
    );
    let big = setup.to_record(ByteOrder::Big);
    assert_eq!(&big[..12], &[1, 2, 0, 0, 0, 0, 0, 1, 0xff, 0xff, 0xff, 0xfe]);
}

#[test]
fn record_of_the_identity() {
    let commands = setup_commands();
    let DeviceCommand::DevSetup(setup) = &commands[31] else {
        panic!("no identity");
    };
    let record = setup.to_record(ByteOrder::Little);
    assert_eq!(record.len(), 92);
    assert_eq!(&record[..12], &[3, 0, 0x5e, 0x04, 0x8e, 0x02, 0x14, 0x01, b'X', b'b', b'o', b'x']);
    assert_eq!(&record[88..], &[0, 0, 0, 0]);
}

#[test]
fn record_of_an_event() {
    let event = VirtualXboxController::send_axis(0x11, -1);
    assert_eq!(
        event.to_record(ByteOrder::Little, 16),
        vec![
            0, 0, 0, 0, 0, 0, 0, 0, 0, 0, 0, 0, 0, 0, 0, 0, 3, 0, 0x11, 0, 0xff, 0xff, 0xff, 0xff
        ]
    );
    let event = VirtualXboxController::send_key(0x130, true);
    assert_eq!(event.to_record(ByteOrder::Big, 0), vec![0, 1, 1, 0x30, 0, 0, 0, 1]);
}
