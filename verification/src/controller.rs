//! The virtual Xbox 360 controller: how it is set up, and how a report of a 3DS
//! is replayed on it.

use std::collections::VecDeque;

use vstd::prelude::*;

use crate::axis::{
    axis_value, lemma_axis_range, map_axis_i16_to_i32, map_vertical_axis, vertical_axis_value,
    AXIS_MAX, AXIS_MIN,
};
use crate::buttons::{lemma_bit_is_mask, N3DSButtons};
use crate::bytes::ByteOrder;
use crate::codes::{
    ABS_HAT0X, ABS_HAT0Y, ABS_RX, ABS_RY, ABS_RZ, ABS_X, ABS_Y, ABS_Z, BTN_EAST, BTN_MODE,
    BTN_NORTH, BTN_SELECT, BTN_SOUTH, BTN_START, BTN_THUMBL, BTN_THUMBR, BTN_TL, BTN_TR, BTN_WEST,
    EV_ABS, EV_KEY, EV_SYN, SYN_REPORT, UI_SET_ABSBIT, UI_SET_EVBIT, UI_SET_KEYBIT,
};
use crate::event::InputEvent;
use crate::packet::{RecvInput, Vec2};
use crate::uinput::{
    lemma_calls_tell_the_kernel, Argument, DeviceCommand, InputAbsInfo, InputId, UinputAbsSetup,
    UinputSetup,
};

verus! {

/// The name of the controller, closed by a NUL byte and padded with more of them.
pub const CONTROLLER_NAME: [u8; 80] = [
    0x58, 0x62, 0x6f, 0x78, 0x20, 0x33, 0x36, 0x30, 0x20, 0x43,
    0x6f, 0x6e, 0x74, 0x72, 0x6f, 0x6c, 0x6c, 0x65, 0x72, 0,
    0, 0, 0, 0, 0, 0, 0, 0, 0, 0,
    0, 0, 0, 0, 0, 0, 0, 0, 0, 0,
    0, 0, 0, 0, 0, 0, 0, 0, 0, 0,
    0, 0, 0, 0, 0, 0, 0, 0, 0, 0,
    0, 0, 0, 0, 0, 0, 0, 0, 0, 0,
    0, 0, 0, 0, 0, 0, 0, 0, 0, 0,
];

/// The event types of the controller.
pub open spec fn event_types() -> Seq<u16> {
    seq![EV_KEY, EV_ABS, EV_SYN]
}

/// The buttons of the controller: A, B, X, Y, LB, RB, Back, Start, Guide, LS, RS.
pub open spec fn button_codes() -> Seq<u16> {
    seq![
        BTN_SOUTH,
        BTN_EAST,
        BTN_WEST,
        BTN_NORTH,
        BTN_TL,
        BTN_TR,
        BTN_SELECT,
        BTN_START,
        BTN_MODE,
        BTN_THUMBL,
        BTN_THUMBR,
    ]
}

/// The axes of the controller: sticks, triggers and D-pad.
pub open spec fn axis_codes() -> Seq<u16> {
    seq![ABS_X, ABS_Y, ABS_Z, ABS_RX, ABS_RY, ABS_RZ, ABS_HAT0X, ABS_HAT0Y]
}

/// The axes of the two sticks.
pub open spec fn stick_codes() -> Seq<u16> {
    seq![ABS_X, ABS_Y, ABS_RX, ABS_RY]
}

/// The two triggers.
pub open spec fn trigger_codes() -> Seq<u16> {
    seq![ABS_Z, ABS_RZ]
}

/// The axes of the D-pad.
pub open spec fn hat_codes() -> Seq<u16> {
    seq![ABS_HAT0X, ABS_HAT0Y]
}

/// An axis that rests at zero and goes from `minimum` to `maximum`.
pub open spec fn axis_range(minimum: int, maximum: int, flat: int) -> InputAbsInfo {
    InputAbsInfo {
        value: 0,
        minimum: minimum as i32,
        maximum: maximum as i32,
        fuzz: 0,
        flat: flat as i32,
        resolution: 0,
    }
}

/// The commands that enable each of `codes`.
pub open spec fn enable_commands(request: u32, codes: Seq<u16>) -> Seq<DeviceCommand> {
    codes.map_values(|code: u16| DeviceCommand::SetBit { request, value: code as u32 })
}

/// The commands that declare `absinfo` as the range of each of `codes`.
pub open spec fn range_commands(codes: Seq<u16>, absinfo: InputAbsInfo) -> Seq<DeviceCommand> {
    codes.map_values(|code: u16| DeviceCommand::AbsSetup(UinputAbsSetup { code, absinfo }))
}

/// The identity of the controller: that of an Xbox 360 controller on USB.
pub open spec fn controller_identity() -> UinputSetup {
    UinputSetup {
        id: InputId { bustype: 0x03, vendor: 0x045e, product: 0x028e, version: 0x0114 },
        name: CONTROLLER_NAME,
        ff_effects_max: 0,
    }
}

/// The commands that bring a controller into being, in their order.
pub open spec fn setup_script() -> Seq<DeviceCommand> {
    seq![DeviceCommand::Open] + enable_commands(UI_SET_EVBIT, event_types()) + enable_commands(
        UI_SET_KEYBIT,
        button_codes(),
    ) + enable_commands(UI_SET_ABSBIT, axis_codes()) + range_commands(
        stick_codes(),
        axis_range(AXIS_MIN as int, AXIS_MAX as int, 4096),
    ) + range_commands(trigger_codes(), axis_range(0, 255, 0)) + range_commands(
        hat_codes(),
        axis_range(-1, 1, 0),
    ) + seq![DeviceCommand::DevSetup(controller_identity()), DeviceCommand::Create]
}

/// Whether `command` declares the range of the axis that `event` reports.
pub open spec fn is_range_for(command: DeviceCommand, event: InputEvent) -> bool {
    command matches DeviceCommand::AbsSetup(setup) && setup.code == event.code
}

/// Whether the value of `event` lies in the range that `command` declares.
pub open spec fn in_range(command: DeviceCommand, event: InputEvent) -> bool {
    command matches DeviceCommand::AbsSetup(setup) && setup.absinfo.minimum <= event.value
        <= setup.absinfo.maximum
}

/// A virtual controller that has been created.
#[derive(Clone, Copy, Debug, PartialEq, Eq, Structural)]
pub struct VirtualXboxController {
    pub controller_id: usize,
}

/// Appends the commands that enable each of `codes`.
fn push_enable_commands(out: &mut VecDeque<DeviceCommand>, request: u32, codes: &[u16])
    ensures
        final(out)@ == old(out)@ + enable_commands(request, codes@),
{
    let ghost before = out@;
    let mut n: usize = 0;
    while n < codes.len()
        invariant
            n <= codes@.len(),
            out@ == before + enable_commands(request, codes@.take(n as int)),
        decreases codes@.len() - n,
    {
        out.push_back(DeviceCommand::SetBit { request, value: codes[n] as u32 });
        n = n + 1;
    }
    assert(codes@.take(n as int) =~= codes@);
}

/// Appends the commands that declare `absinfo` as the range of each of `codes`.
fn push_range_commands(out: &mut VecDeque<DeviceCommand>, codes: &[u16], absinfo: InputAbsInfo)
    ensures
        final(out)@ == old(out)@ + range_commands(codes@, absinfo),
{
    let ghost before = out@;
    let mut n: usize = 0;
    while n < codes.len()
        invariant
            n <= codes@.len(),
            out@ == before + range_commands(codes@.take(n as int), absinfo),
        decreases codes@.len() - n,
    {
        out.push_back(DeviceCommand::AbsSetup(UinputAbsSetup { code: codes[n], absinfo }));
        n = n + 1;
    }
    assert(codes@.take(n as int) =~= codes@);
}

/// The commands that bring a controller into being, in their order.
pub fn setup_commands() -> (commands: VecDeque<DeviceCommand>)
    ensures
        commands@ == setup_script(),
{
    let mut commands: VecDeque<DeviceCommand> = VecDeque::new();
    commands.push_back(DeviceCommand::Open);

    let types: [u16; 3] = [EV_KEY, EV_ABS, EV_SYN];
    push_enable_commands(&mut commands, UI_SET_EVBIT, types.as_slice());
    assert(types@ =~= event_types());

    let buttons: [u16; 11] = [
        BTN_SOUTH,
        BTN_EAST,
        BTN_WEST,
        BTN_NORTH,
        BTN_TL,
        BTN_TR,
        BTN_SELECT,
        BTN_START,
        BTN_MODE,
        BTN_THUMBL,
        BTN_THUMBR,
    ];
    push_enable_commands(&mut commands, UI_SET_KEYBIT, buttons.as_slice());
    assert(buttons@ =~= button_codes());

    let axes: [u16; 8] = [ABS_X, ABS_Y, ABS_Z, ABS_RX, ABS_RY, ABS_RZ, ABS_HAT0X, ABS_HAT0Y];
    push_enable_commands(&mut commands, UI_SET_ABSBIT, axes.as_slice());
    assert(axes@ =~= axis_codes());

    let mut absinfo = InputAbsInfo {
        value: 0,
        minimum: AXIS_MIN,
        maximum: AXIS_MAX,
        fuzz: 0,
        flat: 4096,
        resolution: 0,
    };
    let sticks: [u16; 4] = [ABS_X, ABS_Y, ABS_RX, ABS_RY];
    push_range_commands(&mut commands, sticks.as_slice(), absinfo);
    assert(sticks@ =~= stick_codes());

    absinfo.flat = 0;
    absinfo.minimum = 0;
    absinfo.maximum = 255;
    let triggers: [u16; 2] = [ABS_Z, ABS_RZ];
    push_range_commands(&mut commands, triggers.as_slice(), absinfo);
    assert(triggers@ =~= trigger_codes());

    absinfo.minimum = -1;
    absinfo.maximum = 1;
    let hat: [u16; 2] = [ABS_HAT0X, ABS_HAT0Y];
    push_range_commands(&mut commands, hat.as_slice(), absinfo);
    assert(hat@ =~= hat_codes());

    let setup = UinputSetup {
        id: InputId { bustype: 0x03, vendor: 0x045e, product: 0x028e, version: 0x0114 },
        name: CONTROLLER_NAME,
        ff_effects_max: 0,
    };
    commands.push_back(DeviceCommand::DevSetup(setup));
    commands.push_back(DeviceCommand::Create);
    commands
}

/// A controller that is being set up: the commands that are still to be issued.
#[derive(Debug, PartialEq, Eq)]
pub struct ControllerSetup {
    pub controller_id: usize,
    pub commands: VecDeque<DeviceCommand>,
}

/// What comes next when a controller is set up.
#[derive(Debug, PartialEq, Eq)]
pub enum SetupStep {
    /// Issue this command.
    Issue(DeviceCommand),
    /// Every command has succeeded.
    Ready(VirtualXboxController),
    /// A command has failed, which ends the setup.
    Failed,
}

impl ControllerSetup {
    /// Goes on with the setup. `succeeded` says whether the last command that was
    /// issued has succeeded, and is true before there was one. What is left of the
    /// setup comes back as long as there are commands to issue.
    pub fn next_step(self, succeeded: bool) -> (next: (SetupStep, Option<ControllerSetup>))
        ensures
            !succeeded ==> next.0 == SetupStep::Failed && next.1 is None,
            succeeded && self.commands@.len() > 0 ==> {
                &&& next.0 == SetupStep::Issue(self.commands@[0])
                &&& next.1 matches Some(rest)
                &&& rest.controller_id == self.controller_id
                &&& rest.commands@ == self.commands@.skip(1)
            },
            succeeded && self.commands@.len() == 0 ==> next.0 == SetupStep::Ready(
                VirtualXboxController { controller_id: self.controller_id },
            ) && next.1 is None,
    {
        if !succeeded {
            return (SetupStep::Failed, None);
        }
        let ControllerSetup { controller_id, commands } = self;
        let mut commands = commands;
        match commands.pop_front() {
            Some(command) => (
                SetupStep::Issue(command),
                Some(ControllerSetup { controller_id, commands }),
            ),
            None => (SetupStep::Ready(VirtualXboxController { controller_id }), None),
        }
    }
}

/// The event that reports a button.
pub open spec fn key_event(code: u16, pressed: bool) -> InputEvent {
    InputEvent {
        type_: EV_KEY,
        code,
        value: if pressed {
            1
        } else {
            0
        },
    }
}

/// The event that reports the value of an axis.
pub open spec fn axis_event(code: u16, value: int) -> InputEvent {
    InputEvent { type_: EV_ABS, code, value: value as i32 }
}

/// The event that closes an update.
pub open spec fn sync_event() -> InputEvent {
    InputEvent { type_: EV_SYN, code: SYN_REPORT, value: 0 }
}

/// The value of a trigger: fully pulled or released.
pub open spec fn trigger_value(pressed: bool) -> int {
    if pressed {
        255
    } else {
        0
    }
}

/// The value of a D-pad axis: opposite directions cancel each other.
pub open spec fn hat_value(positive: bool, negative: bool) -> int {
    if positive == negative {
        0
    } else if positive {
        1
    } else {
        -1
    }
}

/// The events that report the held buttons, in the order in which they are sent.
pub open spec fn button_events(held: N3DSButtons) -> Seq<InputEvent> {
    seq![
        key_event(BTN_SOUTH, held.bit(1)),  // B
        key_event(BTN_EAST, held.bit(0)),  // A
        key_event(BTN_WEST, held.bit(10)),  // X
        key_event(BTN_NORTH, held.bit(11)),  // Y
        key_event(BTN_TL, held.bit(9)),  // L
        key_event(BTN_TR, held.bit(8)),  // R
        axis_event(ABS_Z, trigger_value(held.bit(14))),  // ZL
        axis_event(ABS_RZ, trigger_value(held.bit(15))),  // ZR
        axis_event(ABS_HAT0X, hat_value(held.bit(4), held.bit(5))),  // D-pad right, left
        axis_event(ABS_HAT0Y, hat_value(held.bit(7), held.bit(6))),  // D-pad down, up
        key_event(BTN_SELECT, held.bit(2)),  // SELECT
        key_event(BTN_START, held.bit(3)),  // START
    ]
}

/// The events that report the sticks: the circle pad on the left one, the C-stick
/// on the right one.
pub open spec fn stick_events(circlepad: Vec2<i16>, cstick: Vec2<i16>) -> Seq<InputEvent> {
    seq![
        axis_event(ABS_X, axis_value(circlepad.x as int)),
        axis_event(ABS_Y, vertical_axis_value(circlepad.y as int)),
        axis_event(ABS_RX, axis_value(cstick.x as int)),
        axis_event(ABS_RY, vertical_axis_value(cstick.y as int)),
    ]
}

/// The events that replay a report, in the order in which they are sent.
pub open spec fn update_events(input: RecvInput) -> Seq<InputEvent> {
    button_events(input.keys_held) + stick_events(input.circlepad, input.cstick) + seq![
        sync_event(),
    ]
}

/// Whether the vertical stick positions of a report can be flipped in 16 bits.
pub open spec fn can_flip(input: RecvInput) -> bool {
    &&& 1 - input.circlepad.y <= i16::MAX
    &&& 1 - input.cstick.y <= i16::MAX
}

/// Queues events behind those that are queued already, in their order.
fn push_events(queue: &mut VecDeque<InputEvent>, events: &[InputEvent])
    ensures
        final(queue)@ == old(queue)@ + events@,
{
    let ghost before = queue@;
    let mut n: usize = 0;
    while n < events.len()
        invariant
            n <= events@.len(),
            queue@ == before + events@.take(n as int),
        decreases events@.len() - n,
    {
        queue.push_back(events[n]);
        n = n + 1;
    }
    assert(events@.take(n as int) =~= events@);
}

impl VirtualXboxController {
    /// Begins to set up a controller.
    pub fn new(controller_id: usize) -> (setup: ControllerSetup)
        ensures
            setup.controller_id == controller_id,
            setup.commands@ == setup_script(),
    {
        ControllerSetup { controller_id, commands: setup_commands() }
    }

    /// Whether the vertical stick positions of a report can be flipped in 16 bits.
    pub fn accepts(input: &RecvInput) -> (accepted: bool)
        ensures
            accepted == can_flip(*input),
    {
        input.circlepad.y >= 1 - i16::MAX && input.cstick.y >= 1 - i16::MAX
    }

    /// The events that replay a report, in the order in which they are sent.
    pub fn update_from_input(input: &RecvInput) -> (events: VecDeque<InputEvent>)
        requires
            can_flip(*input),
        ensures
            events@ == update_events(*input),
    {
        let mut queue: VecDeque<InputEvent> = VecDeque::new();
        Self::push_button_events(&mut queue, &input.keys_held);

        let left_stick_x: i32 = map_axis_i16_to_i32(input.circlepad.x);
        let left_stick_y: i32 = map_vertical_axis(input.circlepad.y);
        let right_stick_x: i32 = map_axis_i16_to_i32(input.cstick.x);
        let right_stick_y: i32 = map_vertical_axis(input.cstick.y);
        let events: [InputEvent; 4] = [
            Self::send_axis(ABS_X, left_stick_x),
            Self::send_axis(ABS_Y, left_stick_y),
            Self::send_axis(ABS_RX, right_stick_x),
            Self::send_axis(ABS_RY, right_stick_y),
        ];
        assert(events@ =~= stick_events(input.circlepad, input.cstick));
        push_events(&mut queue, events.as_slice());

        queue.push_back(Self::send_event(EV_SYN, SYN_REPORT, 0));
        queue
    }

    /// Queues the events that report the held buttons.
    fn push_button_events(queue: &mut VecDeque<InputEvent>, keys_held: &N3DSButtons)
        ensures
            final(queue)@ == old(queue)@ + button_events(*keys_held),
    {
        let left_trigger: i32 = keys_held.zl() as i32 * 255;
        let right_trigger: i32 = keys_held.zr() as i32 * 255;

        let dpad_x: i32 = keys_held.dpad_right() as i32 - keys_held.dpad_left() as i32;
        let dpad_y: i32 = keys_held.dpad_down() as i32 - keys_held.dpad_up() as i32;

        let events: [InputEvent; 12] = [
            Self::send_key(BTN_SOUTH, keys_held.b()),
            Self::send_key(BTN_EAST, keys_held.a()),
            Self::send_key(BTN_WEST, keys_held.x()),
            Self::send_key(BTN_NORTH, keys_held.y()),
            Self::send_key(BTN_TL, keys_held.l()),
            Self::send_key(BTN_TR, keys_held.r()),
            Self::send_axis(ABS_Z, left_trigger),
            Self::send_axis(ABS_RZ, right_trigger),
            Self::send_axis(ABS_HAT0X, dpad_x),
            Self::send_axis(ABS_HAT0Y, dpad_y),
            Self::send_key(BTN_SELECT, keys_held.select()),
            Self::send_key(BTN_START, keys_held.start()),
        ];
        assert(events@ =~= button_events(*keys_held));
        push_events(queue, events.as_slice());
    }

    /// The event that reports a button.
    pub fn send_key(code: u16, value: bool) -> (event: InputEvent)
        ensures
            event == key_event(code, value),
    {
        Self::send_event(EV_KEY, code, value as i32)
    }

    /// The event that reports the value of an axis.
    pub fn send_axis(code: u16, value: i32) -> (event: InputEvent)
        ensures
            event == axis_event(code, value as int),
    {
        Self::send_event(EV_ABS, code, value)
    }

    /// The command that ends the life of a controller.
    pub fn destroy(&self) -> (command: DeviceCommand)
        ensures
            command == DeviceCommand::Destroy,
    {
        DeviceCommand::Destroy
    }

    /// An event of any type.
    pub fn send_event(type_: u16, code: u16, value: i32) -> (event: InputEvent)
        ensures
            event == (InputEvent { type_, code, value }),
    {
        InputEvent { type_, code, value }
    }
}

/// Where the parts of the setup script stand.
proof fn lemma_setup_layout()
    ensures
        setup_script().len() == 33,
        setup_script()[0] == DeviceCommand::Open,
        forall|k: int|
            0 <= k < 3 ==> #[trigger] setup_script()[1 + k] == (DeviceCommand::SetBit {
                request: UI_SET_EVBIT,
                value: event_types()[k] as u32,
            }),
        forall|k: int|
            0 <= k < 11 ==> #[trigger] setup_script()[4 + k] == (DeviceCommand::SetBit {
                request: UI_SET_KEYBIT,
                value: button_codes()[k] as u32,
            }),
        forall|k: int|
            0 <= k < 8 ==> #[trigger] setup_script()[15 + k] == (DeviceCommand::SetBit {
                request: UI_SET_ABSBIT,
                value: axis_codes()[k] as u32,
            }),
        forall|k: int|
            0 <= k < 4 ==> #[trigger] setup_script()[23 + k] == DeviceCommand::AbsSetup(
                UinputAbsSetup {
                    code: stick_codes()[k],
                    absinfo: axis_range(AXIS_MIN as int, AXIS_MAX as int, 4096),
                },
            ),
        forall|k: int|
            0 <= k < 2 ==> #[trigger] setup_script()[27 + k] == DeviceCommand::AbsSetup(
                UinputAbsSetup { code: trigger_codes()[k], absinfo: axis_range(0, 255, 0) },
            ),
        forall|k: int|
            0 <= k < 2 ==> #[trigger] setup_script()[29 + k] == DeviceCommand::AbsSetup(
                UinputAbsSetup { code: hat_codes()[k], absinfo: axis_range(-1, 1, 0) },
            ),
        setup_script()[31] == DeviceCommand::DevSetup(controller_identity()),
        setup_script()[32] == DeviceCommand::Create,
{
}

/// The device is opened first and created last, right after its identity has been
/// declared, and nothing is opened or created twice.
pub proof fn lemma_setup_opens_first_and_creates_last(i: int)
    requires
        0 <= i < setup_script().len(),
    ensures
        setup_script()[i] == DeviceCommand::Open <==> i == 0,
        setup_script()[i] is DevSetup <==> i == setup_script().len() - 2,
        setup_script()[i] == DeviceCommand::Create <==> i == setup_script().len() - 1,
        setup_script()[i] !is Destroy,
{
    lemma_setup_layout();
}

/// An update is closed by a synchronisation event, and holds no other.
pub proof fn lemma_update_ends_with_sync(input: RecvInput, i: int)
    requires
        0 <= i < update_events(input).len(),
    ensures
        update_events(input).len() == 17,
        update_events(input)[i].type_ == EV_SYN <==> i == update_events(input).len() - 1,
        update_events(input).last() == sync_event(),
{
}

/// No button or axis is reported twice in one update.
pub proof fn lemma_update_reports_each_code_once(input: RecvInput, i: int, j: int)
    requires
        0 <= i < j < update_events(input).len(),
    ensures
        update_events(input)[i].type_ != update_events(input)[j].type_ || update_events(
            input,
        )[i].code != update_events(input)[j].code,
{
}

/// Whatever an update sends, the setup has enabled: the type of each event, and
/// the code of each button and axis.
pub proof fn lemma_updates_send_what_setup_enabled(input: RecvInput, i: int)
    requires
        0 <= i < update_events(input).len(),
    ensures
        ({
            let event = update_events(input)[i];
            &&& setup_script().contains(
                DeviceCommand::SetBit { request: UI_SET_EVBIT, value: event.type_ as u32 },
            )
            &&& event.type_ == EV_KEY ==> setup_script().contains(
                DeviceCommand::SetBit { request: UI_SET_KEYBIT, value: event.code as u32 },
            )
            &&& event.type_ == EV_ABS ==> setup_script().contains(
                DeviceCommand::SetBit { request: UI_SET_ABSBIT, value: event.code as u32 },
            )
        }),
{
    lemma_setup_layout();
    let event = update_events(input)[i];
    let t = if event.type_ == EV_KEY {
        0
    } else if event.type_ == EV_ABS {
        1
    } else {
        2int
    };
    assert(setup_script()[1 + t] == (DeviceCommand::SetBit {
        request: UI_SET_EVBIT,
        value: event.type_ as u32,
    }));
    if event.type_ == EV_KEY {
        let k = choose|k: int| 0 <= k < 11 && button_codes()[k] == event.code;
        assert(button_codes()[0] == BTN_SOUTH);
        assert(button_codes()[1] == BTN_EAST);
        assert(button_codes()[2] == BTN_WEST);
        assert(button_codes()[3] == BTN_NORTH);
        assert(button_codes()[4] == BTN_TL);
        assert(button_codes()[5] == BTN_TR);
        assert(button_codes()[6] == BTN_SELECT);
        assert(button_codes()[7] == BTN_START);
        assert(setup_script()[4 + k] == (DeviceCommand::SetBit {
            request: UI_SET_KEYBIT,
            value: event.code as u32,
        }));
    }
    if event.type_ == EV_ABS {
        let k = choose|k: int| 0 <= k < 8 && axis_codes()[k] == event.code;
        assert(axis_codes()[0] == ABS_X);
        assert(axis_codes()[1] == ABS_Y);
        assert(axis_codes()[2] == ABS_Z);
        assert(axis_codes()[3] == ABS_RX);
        assert(axis_codes()[4] == ABS_RY);
        assert(axis_codes()[5] == ABS_RZ);
        assert(axis_codes()[6] == ABS_HAT0X);
        assert(axis_codes()[7] == ABS_HAT0Y);
        assert(setup_script()[15 + k] == (DeviceCommand::SetBit {
            request: UI_SET_ABSBIT,
            value: event.code as u32,
        }));
    }
}

/// The setup declares a range for every axis of the controller, and an update
/// never leaves the range declared for the axis that it reports. A button is
/// reported as pressed or as released.
pub proof fn lemma_updates_stay_in_declared_range(input: RecvInput, i: int)
    requires
        0 <= i < update_events(input).len(),
    ensures
        ({
            let event = update_events(input)[i];
            &&& event.type_ == EV_KEY ==> event.value == 0 || event.value == 1
            &&& event.type_ == EV_ABS ==> exists|j: int|
                0 <= j < setup_script().len() && is_range_for(#[trigger] setup_script()[j], event)
            &&& event.type_ == EV_ABS ==> forall|j: int|
                0 <= j < setup_script().len() && is_range_for(
                    #[trigger] setup_script()[j],
                    event,
                ) ==> in_range(setup_script()[j], event)
        }),
{
    lemma_setup_layout();
    let event = update_events(input)[i];
    if event.type_ == EV_ABS {
        assert(stick_codes()[0] == ABS_X);
        assert(stick_codes()[1] == ABS_Y);
        assert(stick_codes()[2] == ABS_RX);
        assert(stick_codes()[3] == ABS_RY);
        assert(trigger_codes()[0] == ABS_Z);
        assert(trigger_codes()[1] == ABS_RZ);
        assert(hat_codes()[0] == ABS_HAT0X);
        assert(hat_codes()[1] == ABS_HAT0Y);
        assert(is_range_for(setup_script()[23], event) || is_range_for(setup_script()[24], event)
            || is_range_for(setup_script()[25], event) || is_range_for(setup_script()[26], event)
            || is_range_for(setup_script()[27], event) || is_range_for(setup_script()[28], event)
            || is_range_for(setup_script()[29], event) || is_range_for(setup_script()[30], event));
        assert forall|j: int|
            0 <= j < setup_script().len() && is_range_for(
                #[trigger] setup_script()[j],
                event,
            ) implies in_range(setup_script()[j], event) by {
            assert(setup_script()[4 + (j - 4)] == setup_script()[j]);
            assert(setup_script()[15 + (j - 15)] == setup_script()[j]);
            assert(setup_script()[23 + (j - 23)] == setup_script()[j]);
            assert(setup_script()[27 + (j - 27)] == setup_script()[j]);
            assert(setup_script()[29 + (j - 29)] == setup_script()[j]);
        }
    }
}

/// Words that agree under the mask of the replayed buttons agree on each of them.
proof fn lemma_masked_bit(w1: u32, w2: u32, n: u32)
    requires
        w1 & 0xCFFF == w2 & 0xCFFF,
        n < 12 || n == 14 || n == 15,
    ensures
        N3DSButtons(w1).bit(n) == N3DSButtons(w2).bit(n),
{
    assert((w1 >> n) & 1 == (w2 >> n) & 1) by (bit_vector)
        requires
            w1 & 0xCFFF == w2 & 0xCFFF,
            n < 12 || n == 14 || n == 15,
    ;
}

/// An update depends on the two sticks and on fourteen held buttons alone: the bits
/// of the touchscreen, the C-stick and the circle pad have no influence, nor have the
/// other fields of a report.
pub proof fn lemma_update_ignores_the_rest(i1: RecvInput, i2: RecvInput)
    requires
        i1.keys_held.0 & 0xCFFF == i2.keys_held.0 & 0xCFFF,
        i1.circlepad == i2.circlepad,
        i1.cstick == i2.cstick,
    ensures
        update_events(i1) == update_events(i2),
{
    let w1 = i1.keys_held.0;
    let w2 = i2.keys_held.0;
    assert forall|n: u32| n < 12 || n == 14 || n == 15 implies #[trigger] i1.keys_held.bit(n)
        == i2.keys_held.bit(n) by {
        lemma_masked_bit(w1, w2, n);
    }
    assert(button_events(i1.keys_held) =~= button_events(i2.keys_held));
}

/// The name that the controller gives is text closed by a NUL byte.
pub proof fn lemma_controller_name(i: int)
    requires
        0 <= i < CONTROLLER_NAME@.len(),
    ensures
        "Xbox 360 Controller"@.len() == 19,
        i < 19 ==> CONTROLLER_NAME@[i] == "Xbox 360 Controller"@[i] as int,
        i >= 19 ==> CONTROLLER_NAME@[i] == 0,
{
    reveal_strlit("Xbox 360 Controller");
}

/// The value of an event of an update is the only one that is reported for its code.
proof fn lemma_reported_once(input: RecvInput, k: int, value: i32)
    requires
        0 <= k < update_events(input).len(),
    ensures
        ({
            let event = update_events(input)[k];
            update_events(input).contains(
                InputEvent { type_: event.type_, code: event.code, value },
            ) <==> value == event.value
        }),
{
    let events = update_events(input);
    let wanted = InputEvent { type_: events[k].type_, code: events[k].code, value };
    if events.contains(wanted) {
        let j = choose|j: int| 0 <= j < events.len() && events[j] == wanted;
        if j < k {
            lemma_update_reports_each_code_once(input, j, k);
        } else if k < j {
            lemma_update_reports_each_code_once(input, k, j);
        }
    }
    if value == events[k].value {
        assert(events[k] == wanted);
    }
}

/// Each button depends on its own button of the 3DS alone: it is reported as pressed
/// where that one bit of the held buttons is set, as released where it is not, and in
/// no other way, whatever else is held. B is the southern button, A the eastern one,
/// X the western one and Y the northern one; L and R are the shoulder buttons.
pub proof fn lemma_buttons_report_their_own_bit(input: RecvInput, n: u32, code: u16, value: i32)
    requires
        ({
            ||| n == 1 && code == 0x130
            ||| n == 0 && code == 0x131
            ||| n == 10 && code == 0x134
            ||| n == 11 && code == 0x133
            ||| n == 9 && code == 0x136
            ||| n == 8 && code == 0x137
            ||| n == 2 && code == 0x13a
            ||| n == 3 && code == 0x13b
        }),
    ensures
        update_events(input).contains(InputEvent { type_: 1, code, value }) <==> value == (
        if input.keys_held.0 & (1u32 << n) != 0 {
            1int
        } else {
            0int
        }),
{
    lemma_bit_is_mask(input.keys_held.0, n);
    let k: int = if code == 0x130 {
        0
    } else if code == 0x131 {
        1
    } else if code == 0x134 {
        2
    } else if code == 0x133 {
        3
    } else if code == 0x136 {
        4
    } else if code == 0x137 {
        5
    } else if code == 0x13a {
        10
    } else {
        11
    };
    assert(update_events(input)[k].type_ == 1 && update_events(input)[k].code == code);
    lemma_reported_once(input, k, value);
}

/// Each trigger depends on its own button alone: fully pulled where that one bit of
/// the held buttons is set, and released where it is not. ZL is the left trigger, and
/// ZR the right one.
pub proof fn lemma_triggers_report_their_own_bit(input: RecvInput, n: u32, code: u16, value: i32)
    requires
        (n == 14 && code == 2) || (n == 15 && code == 5),
    ensures
        update_events(input).contains(InputEvent { type_: 3, code, value }) <==> value == (
        if input.keys_held.0 & (1u32 << n) != 0 {
            255int
        } else {
            0int
        }),
{
    lemma_bit_is_mask(input.keys_held.0, n);
    let k: int = if code == 2 {
        6
    } else {
        7
    };
    assert(update_events(input)[k].type_ == 3 && update_events(input)[k].code == code);
    lemma_reported_once(input, k, value);
}

/// Each axis of the D-pad depends on its own two directions alone: one adds a unit,
/// the other takes one away. Right and down are positive.
pub proof fn lemma_dpad_reports_its_own_bits(
    input: RecvInput,
    plus: u32,
    minus: u32,
    code: u16,
    value: i32,
)
    requires
        (plus == 4 && minus == 5 && code == 0x10) || (plus == 7 && minus == 6 && code == 0x11),
    ensures
        update_events(input).contains(InputEvent { type_: 3, code, value }) <==> value == (
        if input.keys_held.0 & (1u32 << plus) != 0 {
            1int
        } else {
            0int
        }) - (if input.keys_held.0 & (1u32 << minus) != 0 {
            1int
        } else {
            0int
        }),
{
    lemma_bit_is_mask(input.keys_held.0, plus);
    lemma_bit_is_mask(input.keys_held.0, minus);
    let k: int = if code == 0x10 {
        8
    } else {
        9
    };
    assert(update_events(input)[k].type_ == 3 && update_events(input)[k].code == code);
    lemma_reported_once(input, k, value);
}

/// Each stick axis depends on its own coordinate alone: the circle pad moves the left
/// stick, and the C-stick the right one.
pub proof fn lemma_sticks_report_their_own_coordinate(input: RecvInput, value: i32)
    ensures
        update_events(input).contains(InputEvent { type_: 3, code: 0, value }) <==> value
            == axis_value(input.circlepad.x as int),
        update_events(input).contains(InputEvent { type_: 3, code: 1, value }) <==> value
            == vertical_axis_value(input.circlepad.y as int),
        update_events(input).contains(InputEvent { type_: 3, code: 3, value }) <==> value
            == axis_value(input.cstick.x as int),
        update_events(input).contains(InputEvent { type_: 3, code: 4, value }) <==> value
            == vertical_axis_value(input.cstick.y as int),
{
    lemma_axis_range(input.circlepad.x as int);
    lemma_axis_range(input.circlepad.y as int);
    lemma_axis_range(input.cstick.x as int);
    lemma_axis_range(input.cstick.y as int);
    lemma_reported_once(input, 12, value);
    lemma_reported_once(input, 13, value);
    lemma_reported_once(input, 14, value);
    lemma_reported_once(input, 15, value);
}

/// All updates have one shape: whatever the reports, the same codes come in the same
/// order.
pub proof fn lemma_updates_have_one_shape(i1: RecvInput, i2: RecvInput, k: int)
    requires
        0 <= k < update_events(i1).len(),
    ensures
        update_events(i1).len() == update_events(i2).len(),
        update_events(i1)[k].type_ == update_events(i2)[k].type_,
        update_events(i1)[k].code == update_events(i2)[k].code,
{
}

/// The types and codes of an update, in the order in which they are sent: the face
/// and shoulder buttons, the triggers, the D-pad, Select and Start, the left and the
/// right stick, and the end.
pub proof fn lemma_order_of_an_update(input: RecvInput)
    ensures
        update_events(input).map_values(|event: InputEvent| (event.type_, event.code)) == seq![
            (1u16, 0x130u16),
            (1u16, 0x131u16),
            (1u16, 0x134u16),
            (1u16, 0x133u16),
            (1u16, 0x136u16),
            (1u16, 0x137u16),
            (3u16, 2u16),
            (3u16, 5u16),
            (3u16, 0x10u16),
            (3u16, 0x11u16),
            (1u16, 0x13au16),
            (1u16, 0x13bu16),
            (3u16, 0u16),
            (3u16, 1u16),
            (3u16, 3u16),
            (3u16, 4u16),
            (0u16, 0u16),
        ],
        update_events(input).last().value == 0,
{
}

/// What a call queues for a report is its update, and a report is refused only where a
/// vertical position is one of the two lowest numbers.
pub proof fn lemma_calls_replay_reports(
    input: RecvInput,
    events: VecDeque<InputEvent>,
    accepted: bool,
)
    ensures
        call_ensures(VirtualXboxController::update_from_input, (&input,), events) ==> events@
            == update_events(input),
        call_ensures(VirtualXboxController::accepts, (&input,), accepted) ==> accepted == (
        input.circlepad.y >= -32766 && input.cstick.y >= -32766),
        can_flip(input) <==> input.circlepad.y >= -32766 && input.cstick.y >= -32766,
{
}

/// What the calls that make events give: the type of the event says what it is, and
/// code and value are those that were asked for.
pub proof fn lemma_calls_make_events(
    type_: u16,
    code: u16,
    value: i32,
    pressed: bool,
    event: InputEvent,
)
    ensures
        call_ensures(VirtualXboxController::send_key, (code, pressed), event) ==> event.type_ == 1
            && event.code == code && event.value == (if pressed { 1int } else { 0int }),
        call_ensures(VirtualXboxController::send_axis, (code, value), event) ==> event.type_ == 3
            && event.code == code && event.value == value,
        call_ensures(VirtualXboxController::send_event, (type_, code, value), event)
            ==> event.type_ == type_ && event.code == code && event.value == value,
{
}

/// The setup enables the types of buttons, axes and synchronisation, the eleven
/// buttons of the controller and its eight axes, and nothing else.
pub proof fn lemma_setup_enables_exactly(value: u32)
    ensures
        setup_script().contains(DeviceCommand::SetBit { request: 0x40045564, value }) <==> value == 0
            || value == 1 || value == 3,
        setup_script().contains(DeviceCommand::SetBit { request: 0x40045565, value }) <==> value
            == 0x130 || value == 0x131 || value == 0x133 || value == 0x134 || value == 0x136
            || value == 0x137 || 0x13a <= value <= 0x13e,
        setup_script().contains(DeviceCommand::SetBit { request: 0x40045567, value }) <==> value <= 5
            || value == 0x10 || value == 0x11,
{
    lemma_setup_layout();
    let script = setup_script();
    let t = DeviceCommand::SetBit { request: 0x40045564, value };
    let b = DeviceCommand::SetBit { request: 0x40045565, value };
    let a = DeviceCommand::SetBit { request: 0x40045567, value };
    assert(value == 1 ==> script[1] == t);
    assert(value == 3 ==> script[2] == t);
    assert(value == 0 ==> script[3] == t);
    assert(value == 0x130 ==> script[4] == b);
    assert(value == 0x131 ==> script[5] == b);
    assert(value == 0x134 ==> script[6] == b);
    assert(value == 0x133 ==> script[7] == b);
    assert(value == 0x136 ==> script[8] == b);
    assert(value == 0x137 ==> script[9] == b);
    assert(value == 0x13a ==> script[10] == b);
    assert(value == 0x13b ==> script[11] == b);
    assert(value == 0x13c ==> script[12] == b);
    assert(value == 0x13d ==> script[13] == b);
    assert(value == 0x13e ==> script[14] == b);
    assert(value == 0 ==> script[15] == a);
    assert(value == 1 ==> script[16] == a);
    assert(value == 2 ==> script[17] == a);
    assert(value == 3 ==> script[18] == a);
    assert(value == 4 ==> script[19] == a);
    assert(value == 5 ==> script[20] == a);
    assert(value == 0x10 ==> script[21] == a);
    assert(value == 0x11 ==> script[22] == a);
}

/// The setup declares one range for each axis and nothing else: the sticks go over
/// the whole of 16 bits and have a dead zone, the triggers go up to 255, and the D-pad
/// goes one step either way. Every axis rests at zero.
pub proof fn lemma_setup_declares_exactly(code: u16, absinfo: InputAbsInfo)
    ensures
        setup_script().contains(DeviceCommand::AbsSetup(UinputAbsSetup { code, absinfo })) <==> {
            &&& absinfo.value == 0 && absinfo.fuzz == 0 && absinfo.resolution == 0
            &&& {
                ||| (code == 0 || code == 1 || code == 3 || code == 4) && absinfo.minimum == -32768
                    && absinfo.maximum == 32767 && absinfo.flat == 4096
                ||| (code == 2 || code == 5) && absinfo.minimum == 0 && absinfo.maximum == 255
                    && absinfo.flat == 0
                ||| (code == 0x10 || code == 0x11) && absinfo.minimum == -1 && absinfo.maximum == 1
                    && absinfo.flat == 0
            }
        },
{
    lemma_setup_layout();
    let script = setup_script();
    let wanted = DeviceCommand::AbsSetup(UinputAbsSetup { code, absinfo });
    let stick = axis_range(AXIS_MIN as int, AXIS_MAX as int, 4096);
    if absinfo == stick {
        assert(code == 0 ==> script[23] == wanted);
        assert(code == 1 ==> script[24] == wanted);
        assert(code == 3 ==> script[25] == wanted);
        assert(code == 4 ==> script[26] == wanted);
    }
    if absinfo == axis_range(0, 255, 0) {
        assert(code == 2 ==> script[27] == wanted);
        assert(code == 5 ==> script[28] == wanted);
    }
    if absinfo == axis_range(-1, 1, 0) {
        assert(code == 0x10 ==> script[29] == wanted);
        assert(code == 0x11 ==> script[30] == wanted);
    }
}

/// The setup gives itself out as an Xbox 360 controller of Microsoft on USB, without
/// force feedback.
pub proof fn lemma_setup_identity(setup: UinputSetup)
    requires
        setup_script().contains(DeviceCommand::DevSetup(setup)),
    ensures
        setup.id.bustype == 3,
        setup.id.vendor == 0x045e,
        setup.id.product == 0x028e,
        setup.id.version == 0x0114,
        setup.ff_effects_max == 0,
        setup.name == CONTROLLER_NAME,
{
    lemma_setup_layout();
}

/// The setup does nothing twice, and in order: types before buttons before axes, all
/// of them before the first range.
pub proof fn lemma_setup_order(i: int, j: int)
    requires
        0 <= i < j < setup_script().len(),
    ensures
        setup_script()[i] != setup_script()[j],
        setup_script()[j] is SetBit ==> setup_script()[i] !is AbsSetup,
        setup_script()[i] matches DeviceCommand::SetBit { request, value } ==> (
        setup_script()[j] matches DeviceCommand::SetBit { request: later, value: other } ==> request
            <= later),
{
    lemma_setup_layout();
    let script = setup_script();
    assert(script[1 + (i - 1)] == script[i] && script[1 + (j - 1)] == script[j]);
    assert(script[4 + (i - 4)] == script[i] && script[4 + (j - 4)] == script[j]);
    assert(script[15 + (i - 15)] == script[i] && script[15 + (j - 15)] == script[j]);
    assert(script[23 + (i - 23)] == script[i] && script[23 + (j - 23)] == script[j]);
    assert(script[27 + (i - 27)] == script[i] && script[27 + (j - 27)] == script[j]);
    assert(script[29 + (i - 29)] == script[i] && script[29 + (j - 29)] == script[j]);
}

/// The kernel is told to enable what updates send: for every event there are commands
/// of the setup whose calls carry its type, and its code, as they are.
pub proof fn lemma_kernel_is_told_what_updates_send(input: RecvInput, i: int, order: ByteOrder)
    requires
        0 <= i < update_events(input).len(),
    ensures
        ({
            let event = update_events(input)[i];
            let script = setup_script();
            &&& exists|j: int|
                0 <= j < script.len() && #[trigger] calls_with(
                    script[j],
                    order,
                    0x40045564,
                    event.type_ as u32,
                )
            &&& event.type_ == 1 ==> exists|j: int|
                0 <= j < script.len() && #[trigger] calls_with(
                    script[j],
                    order,
                    0x40045565,
                    event.code as u32,
                )
            &&& event.type_ == 3 ==> exists|j: int|
                0 <= j < script.len() && #[trigger] calls_with(
                    script[j],
                    order,
                    0x40045567,
                    event.code as u32,
                )
        }),
{
    let event = update_events(input)[i];
    let script = setup_script();
    lemma_updates_send_what_setup_enabled(input, i);
    let t = DeviceCommand::SetBit { request: UI_SET_EVBIT, value: event.type_ as u32 };
    let j = choose|j: int| 0 <= j < script.len() && script[j] == t;
    lemma_bit_calls(script[j], order, UI_SET_EVBIT, event.type_ as u32);
    if event.type_ == 1 {
        let b = DeviceCommand::SetBit { request: UI_SET_KEYBIT, value: event.code as u32 };
        let k = choose|k: int| 0 <= k < script.len() && script[k] == b;
        lemma_bit_calls(script[k], order, UI_SET_KEYBIT, event.code as u32);
    }
    if event.type_ == 3 {
        let a = DeviceCommand::SetBit { request: UI_SET_ABSBIT, value: event.code as u32 };
        let k = choose|k: int| 0 <= k < script.len() && script[k] == a;
        lemma_bit_calls(script[k], order, UI_SET_ABSBIT, event.code as u32);
    }
}

/// Whether every call made for `command` has this request and this value.
pub open spec fn calls_with(
    command: DeviceCommand,
    order: ByteOrder,
    request: u32,
    value: u32,
) -> bool {
    forall|call: Option<(u32, Argument)>| #[trigger]
        call_ensures(DeviceCommand::ioctl, (&command, order), call) ==> call == Some(
            (request, Argument::Value(value)),
        )
}

/// The call for a bit carries it as it is.
proof fn lemma_bit_calls(command: DeviceCommand, order: ByteOrder, request: u32, value: u32)
    requires
        command == (DeviceCommand::SetBit { request, value }),
    ensures
        calls_with(command, order, request, value),
{
    assert forall|call: Option<(u32, Argument)>| #[trigger]
        call_ensures(DeviceCommand::ioctl, (&command, order), call) implies call == Some(
        (request, Argument::Value(value)),
    ) by {
        lemma_calls_tell_the_kernel(command, order, call);
    }
}

/// The calls of the setup name every button and every axis of the controller by its
/// own code.
pub proof fn lemma_kernel_is_told_every_code(code: u32, order: ByteOrder)
    ensures
        code == 0x130 || code == 0x131 || code == 0x133 || code == 0x134 || code == 0x136 || code
            == 0x137 || 0x13a <= code <= 0x13e ==> exists|j: int|
            0 <= j < setup_script().len() && #[trigger] calls_with(
                setup_script()[j],
                order,
                0x40045565,
                code,
            ),
        code <= 5 || code == 0x10 || code == 0x11 ==> exists|j: int|
            0 <= j < setup_script().len() && #[trigger] calls_with(
                setup_script()[j],
                order,
                0x40045567,
                code,
            ),
{
    let script = setup_script();
    lemma_setup_enables_exactly(code);
    let b = DeviceCommand::SetBit { request: 0x40045565, value: code };
    if script.contains(b) {
        let j = choose|j: int| 0 <= j < script.len() && script[j] == b;
        lemma_bit_calls(script[j], order, 0x40045565, code);
    }
    let a = DeviceCommand::SetBit { request: 0x40045567, value: code };
    if script.contains(a) {
        let j = choose|j: int| 0 <= j < script.len() && script[j] == a;
        lemma_bit_calls(script[j], order, 0x40045567, code);
    }
}

/// What the calls that set a controller up do. A new setup has the number that it was
/// asked for and all the commands. Its steps issue them one by one, from the first on,
/// until the controller is ready or one of them has failed.
pub proof fn lemma_calls_set_up_controllers(
    number: usize,
    setup: ControllerSetup,
    commands: VecDeque<DeviceCommand>,
    succeeded: bool,
    next: (SetupStep, Option<ControllerSetup>),
)
    ensures
        call_ensures(setup_commands, (), commands) ==> commands@.len() == 33 && commands@[0] is Open
            && commands@[32] is Create,
        call_ensures(VirtualXboxController::new, (number,), setup) ==> setup.controller_id == number
            && setup.commands@.len() == 33 && setup.commands@ == setup_script(),
        call_ensures(ControllerSetup::next_step, (setup, succeeded), next) ==> {
            &&& next.0 is Failed <==> !succeeded
            &&& next.0 is Issue <==> succeeded && setup.commands@.len() > 0
            &&& next.1 is Some <==> next.0 is Issue
            &&& next.0 matches SetupStep::Issue(command) ==> seq![command] + next.1->Some_0.commands@
                == setup.commands@
            &&& next.1 matches Some(rest) ==> rest.controller_id == setup.controller_id
            &&& next.0 matches SetupStep::Ready(controller) ==> controller.controller_id
                == setup.controller_id
        },
{
    lemma_setup_opens_first_and_creates_last(0);
    if call_ensures(ControllerSetup::next_step, (setup, succeeded), next) {
        if let SetupStep::Issue(command) = next.0 {
            assert(seq![command] + next.1->Some_0.commands@ =~= setup.commands@);
        }
    }
}

} // verus!
