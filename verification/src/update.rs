//! The replay of a report, step by step: every step is work on a device that can
//! fail, and a failure ends the replay.

use std::collections::VecDeque;

use vstd::prelude::*;

use crate::controller::{
    can_flip, lemma_setup_opens_first_and_creates_last, lemma_update_ends_with_sync, setup_script,
    sync_event, update_events, ControllerSetup, SetupStep, VirtualXboxController,
};
use crate::event::InputEvent;
use crate::packet::RecvInput;
use crate::state::{ClientAccess, ClientAddr, ServerState, StateModel};
use crate::uinput::DeviceCommand;

verus! {

/// A step of the replay of a report.
#[derive(Debug, PartialEq, Eq)]
pub enum UpdateStep {
    /// Issue this command for the controller that is being created.
    Issue(DeviceCommand),
    /// The controller has been created and belongs to a new client.
    Connected(VirtualXboxController),
    /// Write this event to the device of this controller.
    Write { controller: VirtualXboxController, event: InputEvent },
    /// The report has been replayed in full.
    Finished,
    /// The work of a step has failed, which ends the replay.
    Failed,
}

/// How far the replay of a report has come.
#[derive(Debug, PartialEq, Eq)]
pub enum UpdatePhase {
    /// The controller is being created.
    Setup(ControllerSetup),
    /// The events of the report are being written.
    Replay { controller: VirtualXboxController, events: VecDeque<InputEvent> },
}

/// The replay of a report that came from `addr`.
#[derive(Debug, PartialEq, Eq)]
pub struct InputUpdate {
    pub addr: ClientAddr,
    pub input: RecvInput,
    pub phase: UpdatePhase,
}

/// The steps that create a controller.
pub open spec fn setup_steps(controller: VirtualXboxController, commands: Seq<DeviceCommand>) -> Seq<
    UpdateStep,
> {
    commands.map_values(|command: DeviceCommand| UpdateStep::Issue(command)).push(
        UpdateStep::Connected(controller),
    )
}

/// The steps that write events to a controller.
pub open spec fn replay_steps(controller: VirtualXboxController, events: Seq<InputEvent>) -> Seq<
    UpdateStep,
> {
    events.map_values(|event: InputEvent| UpdateStep::Write { controller, event }).push(
        UpdateStep::Finished,
    )
}

impl InputUpdate {
    /// The steps that are still to be taken.
    pub open spec fn steps(self) -> Seq<UpdateStep> {
        match self.phase {
            UpdatePhase::Setup(setup) => {
                let controller = VirtualXboxController { controller_id: setup.controller_id };
                setup_steps(controller, setup.commands@) + replay_steps(
                    controller,
                    update_events(self.input),
                )
            },
            UpdatePhase::Replay { controller, events } => replay_steps(controller, events@),
        }
    }
}

impl StateModel {
    /// The steps that replay a report from `addr`: a new client first gets the next
    /// controller.
    pub open spec fn update_steps(self, addr: ClientAddr, input: RecvInput) -> Seq<UpdateStep> {
        if self.knows(addr) {
            replay_steps(self.clients[addr].controller, update_events(input))
        } else {
            let controller = VirtualXboxController {
                controller_id: self.next_controller_id as usize,
            };
            setup_steps(controller, setup_script()) + replay_steps(
                controller,
                update_events(input),
            )
        }
    }

    /// Whether `update` is a replay that goes on in this state.
    pub open spec fn expects(self, update: InputUpdate) -> bool {
        match update.phase {
            UpdatePhase::Setup(setup) => !self.knows(update.addr) && setup.controller_id
                == self.next_controller_id,
            UpdatePhase::Replay { controller, events } => self.knows(update.addr)
                && self.clients[update.addr].controller == controller,
        }
    }

    /// The state after a step of the replay of a report from `addr`.
    pub open spec fn after_step(
        self,
        addr: ClientAddr,
        input: RecvInput,
        step: UpdateStep,
    ) -> StateModel {
        match step {
            UpdateStep::Connected(controller) => self.with_client(addr),
            UpdateStep::Finished => self.with_input(addr, input),
            _ => self,
        }
    }

    /// The state after several steps.
    pub open spec fn after_steps(
        self,
        addr: ClientAddr,
        input: RecvInput,
        steps: Seq<UpdateStep>,
    ) -> StateModel
        decreases steps.len(),
    {
        if steps.len() == 0 {
            self
        } else {
            self.after_steps(addr, input, steps.drop_last()).after_step(addr, input, steps.last())
        }
    }

    /// Whether the next step can be taken: the numbers that it computes must fit.
    pub open spec fn can_take(self, input: RecvInput, step: UpdateStep) -> bool {
        match step {
            UpdateStep::Connected(controller) => self.next_controller_id < usize::MAX && can_flip(
                input,
            ),
            _ => true,
        }
    }

    /// Whether the replay of a report from `addr` can begin: the numbers that this
    /// computes must fit. For a client that is connected these are its events.
    pub open spec fn can_begin(self, addr: ClientAddr, input: RecvInput) -> bool {
        &&& self.total_packets < u64::MAX
        &&& self.knows(addr) ==> can_flip(input)
    }
}

impl ServerState {
    /// Whether the replay of a report can begin: the numbers that this computes must
    /// fit.
    pub fn can_update(&self, addr: ClientAddr, input: &RecvInput) -> (possible: bool)
        requires
            self.wf(),
        ensures
            possible == self@.can_begin(addr, *input),
    {
        self.snapshot().1 < u64::MAX && match self.get_or_create_client(addr) {
            ClientAccess::Known(controller) => VirtualXboxController::accepts(input),
            ClientAccess::Create(setup) => true,
        }
    }

    /// Begins to replay a report from `addr`, and counts it as received.
    pub fn update_input(&mut self, addr: ClientAddr, input: RecvInput) -> (update: InputUpdate)
        requires
            old(self).wf(),
            old(self)@.can_begin(addr, input),
        ensures
            final(self).wf(),
            final(self)@ == old(self)@.with_packet(),
            update.addr == addr,
            update.input == input,
            update.steps() == old(self)@.update_steps(addr, input),
            final(self)@.expects(update),
    {
        self.record_packet();
        let phase = match self.get_or_create_client(addr) {
            ClientAccess::Known(controller) => UpdatePhase::Replay {
                controller,
                events: VirtualXboxController::update_from_input(&input),
            },
            ClientAccess::Create(setup) => UpdatePhase::Setup(setup),
        };
        InputUpdate { addr, input, phase }
    }

    /// Whether the replay can go on: the numbers that its next step computes must fit.
    pub fn can_resume(&self, update: &InputUpdate) -> (possible: bool)
        requires
            self.wf(),
        ensures
            possible == self@.can_take(update.input, update.steps()[0]),
    {
        match &update.phase {
            UpdatePhase::Setup(setup) => setup.commands.len() > 0 || (self.can_add_client()
                && VirtualXboxController::accepts(&update.input)),
            UpdatePhase::Replay { controller, events } => true,
        }
    }

    /// Takes the next step of a replay, after the work of all earlier steps has
    /// succeeded. What is left of the replay comes back with the step, until it is
    /// finished.
    pub fn resume(&mut self, update: InputUpdate) -> (next: (UpdateStep, Option<InputUpdate>))
        requires
            old(self).wf(),
            old(self)@.expects(update),
            old(self)@.can_take(update.input, update.steps()[0]),
        ensures
            final(self).wf(),
            update.steps().len() > 0,
            next.0 == update.steps()[0],
            final(self)@ == old(self)@.after_step(update.addr, update.input, next.0),
            next.1 is None <==> next.0 == UpdateStep::Finished,
            next.1 matches Some(rest) ==> {
                &&& rest.addr == update.addr
                &&& rest.input == update.input
                &&& rest.steps() == update.steps().skip(1)
                &&& final(self)@.expects(rest)
            },
    {
        let ghost before = update.steps();
        let InputUpdate { addr, input, phase } = update;
        match phase {
            UpdatePhase::Setup(setup) => {
                match setup.next_step(true) {
                    (SetupStep::Issue(command), Some(setup)) => {
                        let rest = InputUpdate { addr, input, phase: UpdatePhase::Setup(setup) };
                        assert(rest.steps() =~= before.skip(1));
                        (UpdateStep::Issue(command), Some(rest))
                    },
                    (SetupStep::Ready(controller), _) => {
                        self.add_client(addr, controller);
                        let events = VirtualXboxController::update_from_input(&input);
                        let rest = InputUpdate {
                            addr,
                            input,
                            phase: UpdatePhase::Replay { controller, events },
                        };
                        assert(rest.steps() =~= before.skip(1));
                        (UpdateStep::Connected(controller), Some(rest))
                    },
                    _ => (UpdateStep::Failed, None),
                }
            },
            UpdatePhase::Replay { controller, events } => {
                let mut events = events;
                match events.pop_front() {
                    Some(event) => {
                        let rest = InputUpdate {
                            addr,
                            input,
                            phase: UpdatePhase::Replay { controller, events },
                        };
                        assert(rest.steps() =~= before.skip(1));
                        (UpdateStep::Write { controller, event }, Some(rest))
                    },
                    None => {
                        self.record_input(addr, input);
                        (UpdateStep::Finished, None)
                    },
                }
            },
        }
    }

    /// Goes on with a replay. `succeeded` says whether the work of the last step has
    /// succeeded, and is true before there was one. A failure ends the replay: no
    /// further step is handed out, and the state stays as it is.
    pub fn proceed(&mut self, update: InputUpdate, succeeded: bool) -> (next: (
        UpdateStep,
        Option<InputUpdate>,
    ))
        requires
            old(self).wf(),
            old(self)@.expects(update),
            succeeded ==> old(self)@.can_take(update.input, update.steps()[0]),
        ensures
            final(self).wf(),
            !succeeded ==> next.0 == UpdateStep::Failed && next.1 is None && final(self)@ == old(
                self)@,
            succeeded ==> {
                &&& update.steps().len() > 0
                &&& next.0 == update.steps()[0]
                &&& final(self)@ == old(self)@.after_step(update.addr, update.input, next.0)
                &&& next.1 is None <==> next.0 == UpdateStep::Finished
            },
            succeeded ==> (next.1 matches Some(rest) ==> {
                &&& rest.addr == update.addr
                &&& rest.input == update.input
                &&& rest.steps() == update.steps().skip(1)
                &&& final(self)@.expects(rest)
            }),
    {
        if succeeded {
            self.resume(update)
        } else {
            (UpdateStep::Failed, None)
        }
    }
}

/// How many steps create the controller before the events of a report follow.
pub open spec fn setup_length(state: StateModel, addr: ClientAddr) -> int {
    if state.knows(addr) {
        0
    } else {
        setup_script().len() as int + 1
    }
}

/// What is left behind when a replay ends after `taken` steps. While the controller
/// is being created, nothing has changed, so the next new client is offered the same
/// number. After that the client stays connected, but its last report stays what it
/// was until the last event of the new one has been written.
pub proof fn lemma_interrupted_update(
    state: StateModel,
    addr: ClientAddr,
    input: RecvInput,
    taken: int,
)
    requires
        0 <= taken <= state.update_steps(addr, input).len(),
    ensures
        ({
            let steps = state.update_steps(addr, input);
            let left = state.after_steps(addr, input, steps.take(taken));
            &&& taken < setup_length(state, addr) ==> left == state
            &&& setup_length(state, addr) <= taken < steps.len() ==> left == state.with_client(addr)
            &&& taken == steps.len() ==> left == state.with_client(addr).with_input(addr, input)
        }),
    decreases taken,
{
    let steps = state.update_steps(addr, input);
    if taken > 0 {
        lemma_interrupted_update(state, addr, input, taken - 1);
        assert(steps.take(taken).drop_last() =~= steps.take(taken - 1));
        assert(steps.take(taken).last() == steps[taken - 1]);
    }
}

/// A replay that is not interrupted leaves the client connected, with the report as
/// its last one. It counts nothing: the report was counted when its replay began.
pub proof fn lemma_complete_update(state: StateModel, addr: ClientAddr, input: RecvInput)
    ensures
        ({
            let left = state.after_steps(addr, input, state.update_steps(addr, input));
            &&& left == state.with_client(addr).with_input(addr, input)
            &&& left.clients[addr].last_input == input
            &&& left.total_packets == state.total_packets
            &&& left.invalid_packets == state.invalid_packets
        }),
{
    let steps = state.update_steps(addr, input);
    lemma_interrupted_update(state, addr, input, steps.len() as int);
    assert(steps.take(steps.len() as int) =~= steps);
}

/// Every event of a replay goes to the controller of the client that sent the
/// report, and only once that controller has been created.
pub proof fn lemma_events_go_to_own_controller(
    state: StateModel,
    addr: ClientAddr,
    input: RecvInput,
    i: int,
)
    requires
        0 <= i < state.update_steps(addr, input).len(),
    ensures
        state.update_steps(addr, input)[i] matches UpdateStep::Write { controller, event } ==> {
            &&& i >= setup_length(state, addr)
            &&& event == update_events(input)[i - setup_length(state, addr)]
            &&& controller == state.with_client(addr).clients[addr].controller
        },
        state.update_steps(addr, input)[i] is Issue ==> i < setup_length(state, addr),
        state.update_steps(addr, input)[i] is Finished <==> i == state.update_steps(
            addr,
            input,
        ).len() - 1,
{
}

/// A client that has reported before keeps its controller: its next report is
/// replayed without creating one.
pub proof fn lemma_second_report_needs_no_setup(
    state: StateModel,
    addr: ClientAddr,
    first: RecvInput,
    second: RecvInput,
)
    ensures
        ({
            let between = state.after_steps(addr, first, state.update_steps(addr, first));
            between.update_steps(addr, second) == replay_steps(
                state.with_client(addr).clients[addr].controller,
                update_events(second),
            )
        }),
{
    lemma_complete_update(state, addr, first);
}

/// The steps that are handed out when the work of step `i` turns out as
/// `outcomes[i]`: the first one comes first, a success is followed by the next one,
/// and a failure by the end. Where no outcome is
/// given, the work succeeds.
pub open spec fn transcript(steps: Seq<UpdateStep>, outcomes: Seq<bool>) -> Seq<UpdateStep>
    decreases steps.len(),
{
    if steps.len() == 0 || outcomes.len() == 0 {
        steps
    } else if !outcomes[0] {
        seq![steps[0], UpdateStep::Failed]
    } else {
        seq![steps[0]] + transcript(steps.skip(1), outcomes.skip(1))
    }
}

/// Whether the work of step `failed` is the first that fails.
pub open spec fn fails_first_at(outcomes: Seq<bool>, failed: int) -> bool {
    &&& 0 <= failed < outcomes.len()
    &&& !outcomes[failed]
    &&& forall|i: int| 0 <= i < failed ==> outcomes[i]
}

/// A failure ends the work: what has been handed out is the steps up to the one that
/// failed, and then the end. Without a failure it is all of them.
pub proof fn lemma_failure_ends_the_work(
    steps: Seq<UpdateStep>,
    outcomes: Seq<bool>,
    failed: int,
)
    ensures
        fails_first_at(outcomes, failed) && failed < steps.len() ==> transcript(steps, outcomes)
            == steps.take(failed + 1).push(UpdateStep::Failed),
        (forall|i: int| 0 <= i < outcomes.len() ==> outcomes[i]) ==> transcript(steps, outcomes)
            == steps,
    decreases steps.len(),
{
    if steps.len() > 0 && outcomes.len() > 0 {
        lemma_failure_ends_the_work(steps.skip(1), outcomes.skip(1), failed - 1);
        assert(seq![steps[0]] + steps.skip(1) =~= steps);
        if fails_first_at(outcomes, failed) && failed < steps.len() {
            if failed == 0 {
                assert(transcript(steps, outcomes) =~= steps.take(1).push(UpdateStep::Failed));
            } else {
                assert(outcomes[0]);
                assert(fails_first_at(outcomes.skip(1), failed - 1));
                assert(seq![steps[0]] + steps.skip(1).take(failed).push(UpdateStep::Failed)
                    =~= steps.take(failed + 1).push(UpdateStep::Failed));
            }
        }
    }
}

/// After a failure while a controller is being set up, it is not created, and nothing
/// is ever written or destroyed on its account. After a failed event the update is
/// not closed: no synchronisation event follows.
pub proof fn lemma_nothing_follows_a_failure(
    state: StateModel,
    addr: ClientAddr,
    input: RecvInput,
    outcomes: Seq<bool>,
    failed: int,
    i: int,
)
    requires
        fails_first_at(outcomes, failed),
        failed < state.update_steps(addr, input).len(),
        0 <= i < transcript(state.update_steps(addr, input), outcomes).len(),
    ensures
        ({
            let steps = state.update_steps(addr, input);
            let step = transcript(steps, outcomes)[i];
            &&& i > failed ==> step == UpdateStep::Failed
            &&& steps[failed] is Issue && step == UpdateStep::Issue(DeviceCommand::Create) ==> i
                == failed
            &&& steps[failed] is Issue ==> step !is Write && step !is Connected
            &&& step != UpdateStep::Issue(DeviceCommand::Destroy)
            &&& steps[failed] is Write ==> (step matches UpdateStep::Write { controller, event }
                ==> (event == sync_event() ==> i == failed))
            &&& steps[failed] is Write ==> step != UpdateStep::Finished
        }),
{
    let steps = state.update_steps(addr, input);
    lemma_failure_ends_the_work(steps, outcomes, failed);
    lemma_events_go_to_own_controller(state, addr, input, failed);
    if i <= failed {
        assert(transcript(steps, outcomes)[i] == steps[i]);
        lemma_events_go_to_own_controller(state, addr, input, i);
        if !state.knows(addr) {
            assert(setup_length(state, addr) == setup_script().len() + 1);
            if i < setup_script().len() {
                lemma_setup_opens_first_and_creates_last(i);
            }
        }
        if let UpdateStep::Write { controller, event } = steps[i] {
            lemma_update_ends_with_sync(input, i - setup_length(state, addr));
        }
    }
}

/// A packet of the length of a report, and what became of it.
pub enum ReceivedPacket {
    /// Its magic number is wrong.
    Invalid,
    /// It is a report, of whose replay this many steps were taken before it ended.
    Report { addr: ClientAddr, input: RecvInput, taken: nat },
}

/// The steps of a replay that were taken.
pub open spec fn taken_steps(
    state: StateModel,
    addr: ClientAddr,
    input: RecvInput,
    taken: nat,
) -> Seq<UpdateStep> {
    let steps = state.update_steps(addr, input);
    if taken < steps.len() {
        steps.take(taken as int)
    } else {
        steps
    }
}

/// How many of the packets are invalid.
pub open spec fn invalid_among(packets: Seq<ReceivedPacket>) -> nat
    decreases packets.len(),
{
    if packets.len() == 0 {
        0
    } else if packets.last() is Invalid {
        invalid_among(packets.drop_last()) + 1
    } else {
        invalid_among(packets.drop_last())
    }
}

impl StateModel {
    /// The state after a packet and the replay that it began.
    pub open spec fn after_received(self, packet: ReceivedPacket) -> StateModel {
        match packet {
            ReceivedPacket::Invalid => self.with_packet().with_invalid_packet(),
            ReceivedPacket::Report { addr, input, taken } => self.with_packet().after_steps(
                addr,
                input,
                taken_steps(self, addr, input, taken),
            ),
        }
    }

    /// The state after several packets.
    pub open spec fn after_all(self, packets: Seq<ReceivedPacket>) -> StateModel
        decreases packets.len(),
    {
        if packets.len() == 0 {
            self
        } else {
            self.after_all(packets.drop_last()).after_received(packets.last())
        }
    }

    /// Whether a packet is a report from `addr` that is replayed in full.
    pub open spec fn completes(self, packet: ReceivedPacket, addr: ClientAddr) -> bool {
        packet matches ReceivedPacket::Report { addr: sender, input, taken } && sender == addr
            && taken >= self.update_steps(sender, input).len()
    }

    /// The latest report from `addr` that was replayed in full.
    pub open spec fn latest_completed(
        self,
        packets: Seq<ReceivedPacket>,
        addr: ClientAddr,
    ) -> Option<RecvInput>
        decreases packets.len(),
    {
        if packets.len() == 0 {
            None
        } else if self.after_all(packets.drop_last()).completes(packets.last(), addr) {
            Some(packets.last()->input)
        } else {
            self.latest_completed(packets.drop_last(), addr)
        }
    }
}

/// What a single packet does, as far as the laws over several of them need it.
proof fn lemma_one_packet(state: StateModel, packet: ReceivedPacket)
    ensures
        ({
            let after = state.after_received(packet);
            &&& after.total_packets == state.total_packets + 1
            &&& after.invalid_packets == state.invalid_packets + (if packet is Invalid {
                1nat
            } else {
                0nat
            })
            &&& after.next_controller_id >= state.next_controller_id
            &&& state.clients.dom().subset_of(after.clients.dom())
            &&& forall|a: ClientAddr|
                #![trigger after.clients[a]]
                after.knows(a) && !state.completes(packet, a) ==> after.clients[a].last_input
                    == if state.knows(a) {
                    state.clients[a].last_input
                } else {
                    RecvInput::all_zero()
                }
            &&& forall|a: ClientAddr|
                #![trigger after.clients[a]]
                state.completes(packet, a) ==> after.knows(a) && after.clients[a].last_input
                    == packet->input
        }),
{
    if let ReceivedPacket::Report { addr, input, taken } = packet {
        let begun = state.with_packet();
        let steps = begun.update_steps(addr, input);
        assert(steps == state.update_steps(addr, input));
        if taken < steps.len() {
            lemma_interrupted_update(begun, addr, input, taken as int);
        } else {
            lemma_complete_update(begun, addr, input);
        }
    }
}

/// Every packet of the length of a report is counted, once, and the invalid ones once
/// more. No count ever decreases, and no client is ever lost.
pub proof fn lemma_counts_over_time(state: StateModel, packets: Seq<ReceivedPacket>)
    ensures
        ({
            let after = state.after_all(packets);
            &&& after.total_packets == state.total_packets + packets.len()
            &&& after.invalid_packets == state.invalid_packets + invalid_among(packets)
            &&& after.next_controller_id >= state.next_controller_id
            &&& state.clients.dom().subset_of(after.clients.dom())
        }),
    decreases packets.len(),
{
    if packets.len() > 0 {
        lemma_counts_over_time(state, packets.drop_last());
        lemma_one_packet(state.after_all(packets.drop_last()), packets.last());
    }
}

/// The last report of a client is the latest one that was replayed in full. Where
/// there was none, it is what it was, and that of a new client is all zero.
pub proof fn lemma_last_report_is_latest_completed(
    state: StateModel,
    packets: Seq<ReceivedPacket>,
    addr: ClientAddr,
)
    ensures
        ({
            let after = state.after_all(packets);
            match state.latest_completed(packets, addr) {
                Some(input) => after.knows(addr) && after.clients[addr].last_input == input,
                None => after.knows(addr) ==> after.clients[addr].last_input == if state.knows(
                    addr,
                ) {
                    state.clients[addr].last_input
                } else {
                    RecvInput::all_zero()
                },
            }
        }),
    decreases packets.len(),
{
    if packets.len() > 0 {
        let before = state.after_all(packets.drop_last());
        lemma_last_report_is_latest_completed(state, packets.drop_last(), addr);
        lemma_one_packet(before, packets.last());
        lemma_counts_over_time(state, packets.drop_last());
    }
}

/// The steps of a replay, one by one. For a connected client they are the events of
/// the update, written to its controller, and the end. For a new one the commands of
/// the setup come first, and then the controller with the next number.
pub proof fn lemma_steps_of_a_replay(
    state: StateModel,
    addr: ClientAddr,
    input: RecvInput,
    i: int,
)
    requires
        state.next_controller_id < usize::MAX,
    ensures
        ({
            let steps = state.update_steps(addr, input);
            let known = state.clients.dom().contains(addr);
            &&& known ==> steps.len() == 18 && steps[17] == UpdateStep::Finished
            &&& known && 0 <= i < 17 ==> steps[i] == (UpdateStep::Write {
                controller: state.clients[addr].controller,
                event: update_events(input)[i],
            })
            &&& !known ==> steps.len() == 52 && steps[51] == UpdateStep::Finished
            &&& !known && 0 <= i < 33 ==> steps[i] == UpdateStep::Issue(setup_script()[i])
            &&& !known ==> (steps[33] matches UpdateStep::Connected(controller)
                && controller.controller_id == state.next_controller_id)
            &&& !known && 0 <= i < 17 ==> (steps[34 + i] matches UpdateStep::Write {
                controller,
                event,
            } && controller.controller_id == state.next_controller_id && event == update_events(
                input,
            )[i])
        }),
{
    lemma_update_ends_with_sync(input, 0);
    lemma_setup_opens_first_and_creates_last(0);
    let steps = state.update_steps(addr, input);
    assert(setup_script().len() == 33);
    assert(update_events(input).len() == 17);
}

/// No report is held up but for want of room for a number: a replay can begin unless
/// the count of packets is full or a known client has a stick at one of the two lowest
/// positions, and a step can be taken unless it needs such a number.
pub proof fn lemma_replays_are_not_held_up(
    state: StateModel,
    addr: ClientAddr,
    input: RecvInput,
    step: UpdateStep,
)
    ensures
        state.can_begin(addr, input) <==> state.total_packets < u64::MAX && (state.knows(addr) ==> (
        input.circlepad.y >= -32766 && input.cstick.y >= -32766)),
        step !is Connected ==> state.can_take(input, step),
        step is Connected ==> (state.can_take(input, step) <==> state.next_controller_id < usize::MAX
            && input.circlepad.y >= -32766 && input.cstick.y >= -32766),
{
}

/// What the calls that test for this answer.
pub proof fn lemma_calls_test_for_room(
    state: ServerState,
    addr: ClientAddr,
    input: RecvInput,
    update: InputUpdate,
    possible: bool,
)
    ensures
        call_ensures(ServerState::can_update, (&state, addr, &input), possible) ==> possible
            == state@.can_begin(addr, input),
        call_ensures(ServerState::can_resume, (&state, &update), possible) ==> possible
            == state@.can_take(update.input, update.steps()[0]),
{
}

/// What the call that begins a replay does: it counts the packet, leaves the clients
/// alone, and owes all the steps.
pub proof fn lemma_calls_begin_replays(addr: ClientAddr, input: RecvInput, update: InputUpdate)
    ensures
        forall|state: &mut ServerState| #[trigger]
            call_ensures(ServerState::update_input, (state, addr, input), update) ==> {
                &&& final(state)@.total_packets == state@.total_packets + 1
                &&& final(state)@.invalid_packets == state@.invalid_packets
                &&& final(state)@.clients == state@.clients
                &&& final(state)@.next_controller_id == state@.next_controller_id
                &&& update.addr == addr
                &&& update.input == input
                &&& update.steps() == state@.update_steps(addr, input)
            },
{
}

/// What a step of a replay changes. The step that connects a client adds it, with the
/// next number and a blank report. The one that ends the replay sets the last report of
/// the client, whose controller it keeps. No other step changes anything, no step
/// touches another client, and the counts never change.
pub proof fn lemma_what_steps_change(
    state: StateModel,
    addr: ClientAddr,
    input: RecvInput,
    step: UpdateStep,
    other: ClientAddr,
)
    requires
        state.next_controller_id < usize::MAX,
    ensures
        ({
            let after = state.after_step(addr, input, step);
            let known = state.clients.dom().contains(addr);
            &&& step !is Connected && step !is Finished ==> after == state
            &&& after.total_packets == state.total_packets
            &&& after.invalid_packets == state.invalid_packets
            &&& other != addr ==> (after.clients.dom().contains(other)
                <==> state.clients.dom().contains(other))
            &&& other != addr && state.clients.dom().contains(other) ==> after.clients[other]
                == state.clients[other]
            &&& step is Connected ==> after.clients.dom().contains(addr)
            &&& step is Connected && known ==> after == state
            &&& step is Connected && !known ==> after.next_controller_id
                == state.next_controller_id + 1 && after.clients[addr].controller.controller_id
                == state.next_controller_id && after.clients[addr].last_input.network_bytes()
                =~= Seq::new(40, |i: int| 0u8)
            &&& step is Finished ==> after.clients[addr].last_input == input
                && after.clients[addr].controller == state.clients[addr].controller
                && after.next_controller_id == state.next_controller_id
        }),
{
}

/// What the calls that go on with a replay do: they take its first step, change what
/// that step changes, and hand back the others. After a failure nothing is changed and
/// nothing is left to do.
pub proof fn lemma_calls_go_on_with_replays(
    update: InputUpdate,
    succeeded: bool,
    next: (UpdateStep, Option<InputUpdate>),
)
    ensures
        forall|state: &mut ServerState| #[trigger]
            call_ensures(ServerState::proceed, (state, update, succeeded), next) ==> {
                let after = final(state)@;
                &&& !succeeded ==> next.0 is Failed && next.1 is None && after == state@
                &&& succeeded ==> {
                    &&& next.0 == update.steps()[0]
                    &&& after == state@.after_step(update.addr, update.input, update.steps()[0])
                    &&& next.1 is None <==> next.0 is Finished
                    &&& next.1 matches Some(rest) ==> seq![next.0] + rest.steps() =~= update.steps()
                        && rest.addr == update.addr && rest.input == update.input
                }
            },
        forall|state: &mut ServerState| #[trigger]
            call_ensures(ServerState::resume, (state, update), next) ==> {
                let after = final(state)@;
                &&& next.0 == update.steps()[0]
                &&& after == state@.after_step(update.addr, update.input, update.steps()[0])
                &&& next.1 is None <==> next.0 is Finished
                &&& next.1 matches Some(rest) ==> seq![next.0] + rest.steps() =~= update.steps()
                    && rest.addr == update.addr && rest.input == update.input
            },
{
}

} // verus!
