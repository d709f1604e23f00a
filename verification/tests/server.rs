use n3ds_controller::server::{PacketOutcome, ServerAction, ServerEvent};
use n3ds_controller::state::{ClientAccess, ClientAddr};
use n3ds_controller::uinput::DeviceCommand;
use n3ds_controller::update::{InputUpdate, UpdateStep};
use n3ds_controller::{N3DSServer, RecvInput, ServerState, VirtualXboxController};

fn v4(port: u16) -> ClientAddr {
    ClientAddr::V4 { ipv4: 0x0a00_0001, port }
}

fn v6(scope_id: u32) -> ClientAddr {
    ClientAddr::V6 { ipv6: 1, port: 1, flowinfo: 0, scope_id }
}

fn numbered(version: u16) -> RecvInput {
    RecvInput { version, ..RecvInput::zeroed() }
}

/// Takes up to `limit` steps of the replay of a report.
fn replay(state: &mut ServerState, addr: ClientAddr, input: RecvInput, limit: usize) -> Vec<UpdateStep> {
    assert!(state.can_update(addr, &input));
    let update = state.update_input(addr, input);
    take_steps(state, update, limit)
}

fn take_steps(state: &mut ServerState, update: InputUpdate, limit: usize) -> Vec<UpdateStep> {
    let mut steps: Vec<UpdateStep> = Vec::new();
    let mut update = Some(update);
    while steps.len() < limit {
        let Some(current) = update.take() else {
            break;
        };
        assert!(state.can_resume(&current));
        let (step, rest) = state.proceed(current, true);
        steps.push(step);
        update = rest;
    }
    steps
}

fn controller_of(state: &ServerState, addr: ClientAddr) -> Option<usize> {
    match state.get_or_create_client(addr) {
        ClientAccess::Known(controller) => Some(controller.controller_id),
        ClientAccess::Create(_) => None,
    }
}

#[test]
fn a_new_state_is_empty() {
    let state = ServerState::new();
    assert_eq!(state.snapshot(), (0, 0, 0));
    assert_eq!(controller_of(&state, v4(1)), None);
    assert!(state.can_add_client());
}

#[test]
fn first_report_creates_a_controller_and_replays() {
    let mut state = ServerState::new();
    let steps = replay(&mut state, v4(1), numbered(1), 1000);
    assert_eq!(steps.len(), 33 + 1 + 17 + 1);
    assert_eq!(steps[0], UpdateStep::Issue(DeviceCommand::Open));
    assert_eq!(steps[32], UpdateStep::Issue(DeviceCommand::Create));
    let controller = VirtualXboxController { controller_id: 0 };
    assert_eq!(steps[33], UpdateStep::Connected(controller));
    assert_eq!(
        steps[34],
        UpdateStep::Write { controller, event: VirtualXboxController::send_key(0x130, false) }
    );
    assert_eq!(
        steps[50],
        UpdateStep::Write { controller, event: VirtualXboxController::send_event(0, 0, 0) }
    );
    assert_eq!(steps[51], UpdateStep::Finished);
    assert_eq!(state.snapshot(), (1, 1, 0));
}

#[test]
fn second_report_needs_no_setup() {
    let mut state = ServerState::new();
    replay(&mut state, v4(1), numbered(1), 1000);
    let steps = replay(&mut state, v4(1), numbered(2), 1000);
    assert_eq!(steps.len(), 18);
    assert_eq!(state.snapshot(), (1, 2, 0));
}

#[test]
fn clients_are_told_apart_by_their_whole_address() {
    let mut state = ServerState::new();
    for addr in [v4(1), v4(2), v6(0), v6(1)] {
        replay(&mut state, addr, numbered(1), 1000);
    }
    assert_eq!(state.snapshot(), (4, 4, 0));
    assert_eq!(controller_of(&state, v4(1)), Some(0));
    assert_eq!(controller_of(&state, v4(2)), Some(1));
    assert_eq!(controller_of(&state, v6(0)), Some(2));
    assert_eq!(controller_of(&state, v6(1)), Some(3));
}

#[test]
fn failure_while_a_controller_is_created_leaves_no_trace() {
    for taken in 0..34usize {
        let mut state = ServerState::new();
        assert_eq!(replay(&mut state, v4(1), numbered(1), taken).len(), taken);
        assert_eq!(state.snapshot(), (0, 1, 0));
        replay(&mut state, v4(2), numbered(1), 1000);
        assert_eq!(controller_of(&state, v4(2)), Some(0));
    }
}

#[test]
fn failure_while_events_are_written_keeps_the_client() {
    for taken in 34..52usize {
        let mut state = ServerState::new();
        assert_eq!(replay(&mut state, v4(1), numbered(1), taken).len(), taken);
        assert_eq!(state.snapshot(), (1, 1, 0));
        assert_eq!(controller_of(&state, v4(1)), Some(0));
    }
}

#[test]
fn reports_that_cannot_be_flipped() {
    let mut low = RecvInput::zeroed();
    low.circlepad.y = i16::MIN;
    let mut state = ServerState::new();
    assert!(state.can_update(v4(1), &low));

    let mut update = state.update_input(v4(1), low);
    for _ in 0..33 {
        assert!(state.can_resume(&update));
        update = state.resume(update).1.unwrap();
    }
    assert!(!state.can_resume(&update));

    replay(&mut state, v4(1), numbered(1), 1000);
    let mut low = RecvInput::zeroed();
    low.cstick.y = -32767;
    assert!(!state.can_update(v4(1), &low));
}

#[test]
fn wrong_length_is_refused() {
    let mut server = N3DSServer::new();
    assert_eq!(
        server.handle_packet(&[0x3d, 0x5c], v4(1)),
        PacketOutcome::Unreadable("Invalid byte length for RecvInput")
    );
    assert_eq!(server.get_state_snapshot(), (0, 0, 0));
}

#[test]
fn wrong_magic_is_counted() {
    let mut server = N3DSServer::new();
    let mut data = vec![0u8; 40];
    data[0] = 0x5c;
    data[1] = 0x3d;
    assert_eq!(server.handle_packet(&data, v4(1)), PacketOutcome::WrongMagic(0x5c3d));
    assert_eq!(server.handle_packet(&data, v4(1)), PacketOutcome::WrongMagic(0x5c3d));
    assert_eq!(server.get_state_snapshot(), (0, 2, 2));
}

#[test]
fn reports_are_accepted() {
    let mut server = N3DSServer::new();
    let mut data = vec![0u8; 40];
    data[0] = 0x3d;
    data[1] = 0x5c;
    data[3] = 9;
    let wanted = RecvInput { magic_number: 0x3d5c, ..numbered(9) };
    let PacketOutcome::Accepted(update) = server.handle_packet(&data, v4(1)) else {
        panic!("not accepted");
    };
    assert_eq!(update.input, wanted);
    assert_eq!(update.addr, v4(1));
    assert_eq!(server.get_state_snapshot(), (0, 1, 0));
}

#[test]
fn reactions_of_the_server() {
    let mut server = N3DSServer::new();
    assert_eq!(server.run(ServerEvent::Cancelled), ServerAction::Stop);
    assert_eq!(server.run(ServerEvent::ReceiveFailed), ServerAction::ReportFailure);
    let short = [0u8; 39];
    assert_eq!(
        server.run(ServerEvent::Received { data: &short, addr: v4(1) }),
        ServerAction::WarnSize { size: 39, addr: v4(1) }
    );
    assert_eq!(server.get_state_snapshot(), (0, 0, 0));
    let wrong = [0u8; 40];
    let event = ServerEvent::Received { data: &wrong, addr: v4(1) };
    assert!(server.can_handle(&wrong, v4(1)));
    assert_eq!(
        server.run(event),
        ServerAction::Packet { outcome: PacketOutcome::WrongMagic(0), addr: v4(1) }
    );
    assert_eq!(server.get_state_snapshot(), (0, 1, 1));
}

#[test]
fn a_datagram_from_arrival_to_replay() {
    let mut server = N3DSServer::new();
    let mut data = vec![0u8; 40];
    data[0] = 0x3d;
    data[1] = 0x5c;
    data[15] = 0x02;
    let action = server.run(ServerEvent::Received { data: &data, addr: v6(3) });
    let ServerAction::Packet { outcome: PacketOutcome::Accepted(update), addr } = action else {
        panic!("not accepted");
    };
    assert_eq!(addr, v6(3));
    let steps = take_steps(&mut server.state, update, 1000);
    let controller = VirtualXboxController { controller_id: 0 };
    assert_eq!(
        steps[34],
        UpdateStep::Write { controller, event: VirtualXboxController::send_key(0x130, true) }
    );
    assert_eq!(server.get_state_snapshot(), (1, 1, 0));
}

#[test]
fn a_known_client_whose_stick_cannot_be_flipped() {
    let mut server = N3DSServer::new();
    let mut data = vec![0u8; 40];
    data[0] = 0x3d;
    data[1] = 0x5c;
    data[22] = 0x80;
    assert!(server.can_handle(&data, v4(1)));
    replay(&mut server.state, v4(1), numbered(1), 1000);
    assert!(!server.can_handle(&data, v4(1)));
    assert!(server.can_handle(&data, v4(2)));
}

#[test]
fn a_report_and_an_invalid_packet_are_both_received() {
    let mut server = N3DSServer::new();
    replay(&mut server.state, v4(1), numbered(1), 1000);
    assert_eq!(server.handle_packet(&[0u8; 40], v4(1)), PacketOutcome::WrongMagic(0));
    assert_eq!(server.get_state_snapshot(), (1, 2, 1));
}

#[test]
fn a_datagram_that_is_too_long_is_refused() {
    let mut server = N3DSServer::new();
    let mut data = [0u8; 41];
    data[0] = 0x3d;
    data[1] = 0x5c;
    assert_eq!(
        server.run(ServerEvent::Received { data: &data, addr: v4(1) }),
        ServerAction::WarnSize { size: 41, addr: v4(1) }
    );
    assert_eq!(server.get_state_snapshot(), (0, 0, 0));
}

#[test]
fn a_failure_ends_the_replay() {
    for succeeding in 1..52usize {
        let mut state = ServerState::new();
        let mut update = state.update_input(v4(1), numbered(1));
        for _ in 0..succeeding {
            update = state.proceed(update, true).1.unwrap();
        }
        let before = state.snapshot();
        assert_eq!(state.proceed(update, false), (UpdateStep::Failed, None));
        assert_eq!(state.snapshot(), before);
        assert_eq!(before, (if succeeding < 34 { 0 } else { 1 }, 1, 0));
    }
}

#[test]
fn counts_over_several_packets() {
    let mut server = N3DSServer::new();
    replay(&mut server.state, v4(1), numbered(1), 5);
    replay(&mut server.state, v4(1), numbered(2), 1000);
    server.handle_packet(&[0u8; 40], v4(2));
    server.handle_packet(&[0u8; 39], v4(2));
    replay(&mut server.state, v4(2), numbered(3), 40);
    assert_eq!(server.get_state_snapshot(), (2, 4, 1));
}
