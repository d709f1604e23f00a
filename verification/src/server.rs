//! The server: what it makes of each datagram, and the counts that it reports.

use vstd::prelude::*;

use crate::packet::{
    lemma_bytes_are_digits_of_fields, lemma_datagrams_and_reports_correspond, RecvInput,
    MAGIC_NUMBER, RECV_INPUT_SIZE,
};
use crate::state::{ClientAddr, ServerState, StateModel};
use crate::update::{lemma_complete_update, InputUpdate, UpdateStep};

verus! {

/// What became of a packet.
#[derive(Debug, PartialEq, Eq)]
pub enum PacketOutcome {
    /// It cannot be read as a report.
    Unreadable(&'static str),
    /// It starts with this number in place of the magic number.
    WrongMagic(u16),
    /// It is a report, whose replay on the controller of its sender begins.
    Accepted(InputUpdate),
}

/// What the server waits for.
#[derive(Debug)]
pub enum ServerEvent<'a> {
    /// The server has been told to stop.
    Cancelled,
    /// A datagram has come.
    Received { data: &'a [u8], addr: ClientAddr },
    /// Receiving has failed.
    ReceiveFailed,
}

/// What the server does next.
#[derive(Debug, PartialEq, Eq)]
pub enum ServerAction {
    /// Stop, without an error.
    Stop,
    /// Warn of a datagram of this many bytes, and receive again.
    WarnSize { size: usize, addr: ClientAddr },
    /// Deal with a packet from `addr`, and receive again.
    Packet { outcome: PacketOutcome, addr: ClientAddr },
    /// Report the failure, and receive again.
    ReportFailure,
}

/// Whether a packet is a report of the right length but with a wrong magic number.
pub open spec fn has_wrong_magic(data: Seq<u8>) -> bool {
    data.len() == RECV_INPUT_SIZE && RecvInput::read_from(data).magic_number != MAGIC_NUMBER
}

/// Whether a packet is a report.
pub open spec fn is_report(data: Seq<u8>) -> bool {
    data.len() == RECV_INPUT_SIZE && RecvInput::read_from(data).magic_number == MAGIC_NUMBER
}

/// Whether a packet from `addr` can be dealt with: the numbers that this computes
/// must fit.
pub open spec fn can_handle_packet(state: StateModel, data: Seq<u8>, addr: ClientAddr) -> bool {
    &&& has_wrong_magic(data) ==> state.invalid_packets < u64::MAX && state.total_packets
        < u64::MAX
    &&& is_report(data) ==> state.can_begin(addr, RecvInput::read_from(data))
}

/// What becomes of a packet from `addr`.
pub open spec fn is_outcome(
    state: StateModel,
    data: Seq<u8>,
    addr: ClientAddr,
    outcome: PacketOutcome,
) -> bool {
    if is_report(data) {
        &&& outcome matches PacketOutcome::Accepted(update)
        &&& update.addr == addr
        &&& update.input == RecvInput::read_from(data)
        &&& update.steps() == state.update_steps(addr, update.input)
        &&& state.after_packet(data).expects(update)
    } else if has_wrong_magic(data) {
        outcome == PacketOutcome::WrongMagic(RecvInput::read_from(data).magic_number)
    } else {
        outcome matches PacketOutcome::Unreadable(message) && message@
            == "Invalid byte length for RecvInput"@
    }
}

impl StateModel {
    /// The state once a packet has been looked at. One of the length of a report
    /// counts as received, and as invalid where its magic number is wrong. What the
    /// replay of a report does is not part of this.
    pub open spec fn after_packet(self, data: Seq<u8>) -> StateModel {
        if has_wrong_magic(data) {
            self.with_packet().with_invalid_packet()
        } else if is_report(data) {
            self.with_packet()
        } else {
            self
        }
    }
}

/// A server and its state.
#[derive(Debug)]
pub struct N3DSServer {
    pub state: ServerState,
}

impl N3DSServer {
    /// A server without clients.
    pub fn new() -> (server: Self)
        ensures
            server.state.wf(),
            server.state@ == StateModel::initial(),
    {
        N3DSServer { state: ServerState::new() }
    }

    /// Whether a packet from `addr` can be dealt with: the numbers that this computes
    /// must fit.
    pub fn can_handle(&self, data: &[u8], addr: ClientAddr) -> (possible: bool)
        requires
            self.state.wf(),
        ensures
            possible == can_handle_packet(self.state@, data@, addr),
    {
        match RecvInput::from_network_bytes(data) {
            Ok(input) => if input.magic_number != MAGIC_NUMBER {
                let counts = self.state.snapshot();
                counts.1 < u64::MAX && counts.2 < u64::MAX
            } else {
                self.state.can_update(addr, &input)
            },
            Err(message) => true,
        }
    }

    /// Decides what to do about an event.
    pub fn run(&mut self, event: ServerEvent<'_>) -> (action: ServerAction)
        requires
            old(self).state.wf(),
            event matches ServerEvent::Received { data, addr } ==> can_handle_packet(
                old(self).state@,
                data@,
                addr,
            ),
        ensures
            final(self).state.wf(),
            match event {
                ServerEvent::Cancelled => {
                    &&& action == ServerAction::Stop
                    &&& final(self).state@ == old(self).state@
                },
                ServerEvent::ReceiveFailed => {
                    &&& action == ServerAction::ReportFailure
                    &&& final(self).state@ == old(self).state@
                },
                ServerEvent::Received { data, addr } => {
                    &&& final(self).state@ == old(self).state@.after_packet(data@)
                    &&& data@.len() != RECV_INPUT_SIZE ==> action == (ServerAction::WarnSize {
                        size: data.len(),
                        addr,
                    })
                    &&& data@.len() == RECV_INPUT_SIZE ==> (action matches ServerAction::Packet {
                        outcome,
                        addr: sender,
                    } && sender == addr && is_outcome(old(self).state@, data@, addr, outcome))
                },
            },
    {
        match event {
            ServerEvent::Cancelled => ServerAction::Stop,
            ServerEvent::ReceiveFailed => ServerAction::ReportFailure,
            ServerEvent::Received { data, addr } => {
                if data.len() != RECV_INPUT_SIZE {
                    ServerAction::WarnSize { size: data.len(), addr }
                } else {
                    ServerAction::Packet { outcome: self.handle_packet(data, addr), addr }
                }
            },
        }
    }

    /// Reads a packet and checks its magic number. With a wrong one it is counted as
    /// received and invalid; the replay of a report begins, which counts it as received.
    pub fn handle_packet(&mut self, data: &[u8], addr: ClientAddr) -> (outcome: PacketOutcome)
        requires
            old(self).state.wf(),
            can_handle_packet(old(self).state@, data@, addr),
        ensures
            final(self).state.wf(),
            is_outcome(old(self).state@, data@, addr, outcome),
            final(self).state@ == old(self).state@.after_packet(data@),
    {
        match RecvInput::from_network_bytes(data) {
            Ok(input) => {
                let magic: u16 = input.magic_number;
                if magic != MAGIC_NUMBER {
                    self.state.record_packet();
                    self.state.record_invalid_packet();
                    return PacketOutcome::WrongMagic(magic);
                }
                PacketOutcome::Accepted(self.state.update_input(addr, input))
            },
            Err(message) => PacketOutcome::Unreadable(message),
        }
    }

    /// The number of clients, of packets received and of invalid ones among them.
    pub fn get_state_snapshot(&self) -> (counts: (usize, u64, u64))
        requires
            self.state.wf(),
        ensures
            counts.0 == self.state@.clients.len(),
            counts.1 == self.state@.total_packets,
            counts.2 == self.state@.invalid_packets,
    {
        self.state.snapshot()
    }
}

/// A packet that is refused never reaches a controller and connects no client. One
/// with a wrong magic number counts as received and as invalid, one of a wrong length
/// leaves no trace.
pub proof fn lemma_refused_packets_change_little(
    state: StateModel,
    data: Seq<u8>,
    addr: ClientAddr,
    outcome: PacketOutcome,
)
    requires
        is_outcome(state, data, addr, outcome),
        outcome !is Accepted,
    ensures
        state.after_packet(data).clients == state.clients,
        state.after_packet(data).next_controller_id == state.next_controller_id,
        outcome is WrongMagic ==> state.after_packet(data).total_packets == state.total_packets + 1,
        outcome is WrongMagic ==> state.after_packet(data).invalid_packets == state.invalid_packets
            + 1,
        outcome is Unreadable ==> state.after_packet(data) == state,
{
}

/// Every invalid packet has been received: there are never more invalid packets than
/// packets.
pub proof fn lemma_invalid_packets_are_received(
    state: StateModel,
    data: Seq<u8>,
    addr: ClientAddr,
    input: RecvInput,
    step: UpdateStep,
)
    requires
        state.invalid_packets <= state.total_packets,
    ensures
        StateModel::initial().invalid_packets <= StateModel::initial().total_packets,
        state.after_packet(data).invalid_packets <= state.after_packet(data).total_packets,
        state.after_step(addr, input, step).invalid_packets <= state.after_step(
            addr,
            input,
            step,
        ).total_packets,
{
}

/// A report that starts with the magic number is accepted and read as what its
/// sender put into the datagram. Once its replay is complete, the sender is a client
/// with this report as its last one.
pub proof fn lemma_sent_reports_are_replayed(
    state: StateModel,
    input: RecvInput,
    addr: ClientAddr,
    outcome: PacketOutcome,
)
    requires
        input.magic_number == MAGIC_NUMBER,
        is_outcome(state, input.network_bytes(), addr, outcome),
    ensures
        state.after_packet(input.network_bytes()) == state.with_packet(),
        outcome matches PacketOutcome::Accepted(update) && update.addr == addr && update.input
            == input && state.with_packet().after_steps(addr, input, update.steps())
            == state.with_packet().with_client(addr).with_input(addr, input),
{
    lemma_datagrams_and_reports_correspond(input, input.network_bytes());
    lemma_complete_update(state.with_packet(), addr, input);
}

/// The magic number alone opens: of the packets of forty bytes those that start with
/// `3d 5c` are accepted, and every other one has the outcome of a wrong magic number,
/// with the number that it starts with. Nothing of another length is read.
pub proof fn lemma_only_the_magic_number_opens(
    state: StateModel,
    data: Seq<u8>,
    addr: ClientAddr,
    outcome: PacketOutcome,
)
    requires
        is_outcome(state, data, addr, outcome),
    ensures
        outcome is Accepted <==> data.len() == 40 && data[0] == 0x3d && data[1] == 0x5c,
        outcome is WrongMagic <==> data.len() == 40 && (data[0] != 0x3d || data[1] != 0x5c),
        outcome is Unreadable <==> data.len() != 40,
        outcome matches PacketOutcome::Unreadable(message) ==> message@
            == "Invalid byte length for RecvInput"@,
        outcome matches PacketOutcome::WrongMagic(magic) ==> magic / 0x100 == data[0] && magic % 0x100
            == data[1],
        outcome matches PacketOutcome::Accepted(update) ==> update.input.network_bytes() == data
            && update.addr == addr,
{
    if data.len() == 40 {
        lemma_bytes_are_digits_of_fields(data);
        lemma_datagrams_and_reports_correspond(RecvInput::read_from(data), data);
    }
}

/// What a packet counts for: one of forty bytes is received, and it is invalid unless
/// it starts with `3d 5c`. No packet connects a client or changes one by itself.
pub proof fn lemma_what_packets_count_for(state: StateModel, data: Seq<u8>)
    ensures
        ({
            let after = state.after_packet(data);
            &&& after.total_packets - state.total_packets == (if data.len() == 40 {
                1int
            } else {
                0int
            })
            &&& after.invalid_packets - state.invalid_packets == (if data.len() == 40 && (data[0]
                != 0x3d || data[1] != 0x5c) {
                1int
            } else {
                0int
            })
            &&& after.clients == state.clients
            &&& after.next_controller_id == state.next_controller_id
        }),
{
    if data.len() == 40 {
        lemma_bytes_are_digits_of_fields(data);
    }
}

/// No packet is held up but for want of room for a number, or for a stick of a known
/// client at one of the two lowest positions.
pub proof fn lemma_packets_are_not_held_up(state: StateModel, data: Seq<u8>, addr: ClientAddr)
    ensures
        data.len() != 40 ==> can_handle_packet(state, data, addr),
        data.len() == 40 && (data[0] != 0x3d || data[1] != 0x5c) ==> (can_handle_packet(
            state,
            data,
            addr,
        ) <==> state.total_packets < u64::MAX && state.invalid_packets < u64::MAX),
        data.len() == 40 && data[0] == 0x3d && data[1] == 0x5c ==> (can_handle_packet(
            state,
            data,
            addr,
        ) <==> state.total_packets < u64::MAX && (state.knows(addr) ==> RecvInput::read_from(
            data,
        ).circlepad.y >= -32766 && RecvInput::read_from(data).cstick.y >= -32766)),
{
    if data.len() == 40 {
        lemma_bytes_are_digits_of_fields(data);
    }
}

/// What the call that handles a packet does, for every server and packet.
pub proof fn lemma_calls_handle_packets(data: &[u8], addr: ClientAddr, outcome: PacketOutcome)
    ensures
        forall|server: &mut N3DSServer| #[trigger]
            call_ensures(N3DSServer::handle_packet, (server, data, addr), outcome) ==> {
                let before = server.state@;
                let after = final(server).state@;
                &&& outcome is Accepted <==> data@.len() == 40 && data@[0] == 0x3d && data@[1]
                    == 0x5c
                &&& outcome is WrongMagic <==> data@.len() == 40 && (data@[0] != 0x3d || data@[1]
                    != 0x5c)
                &&& outcome is WrongMagic ==> after.invalid_packets == before.invalid_packets + 1
                &&& outcome !is WrongMagic ==> after.invalid_packets == before.invalid_packets
                &&& data@.len() == 40 ==> after.total_packets == before.total_packets + 1
                &&& data@.len() != 40 ==> after == before
                &&& after.clients == before.clients
                &&& outcome matches PacketOutcome::Accepted(update) ==> update.addr == addr
                    && update.input.network_bytes() == data@ && update.steps()
                    == before.update_steps(addr, update.input)
            },
{
    assert forall|server: &mut N3DSServer| #[trigger]
        call_ensures(N3DSServer::handle_packet, (server, data, addr), outcome) implies {
        let before = server.state@;
        let after = final(server).state@;
        &&& outcome is Accepted <==> data@.len() == 40 && data@[0] == 0x3d && data@[1] == 0x5c
        &&& outcome is WrongMagic <==> data@.len() == 40 && (data@[0] != 0x3d || data@[1] != 0x5c)
        &&& outcome is WrongMagic ==> after.invalid_packets == before.invalid_packets + 1
        &&& outcome !is WrongMagic ==> after.invalid_packets == before.invalid_packets
        &&& data@.len() == 40 ==> after.total_packets == before.total_packets + 1
        &&& data@.len() != 40 ==> after == before
        &&& after.clients == before.clients
        &&& outcome matches PacketOutcome::Accepted(update) ==> update.addr == addr
            && update.input.network_bytes() == data@ && update.steps() == before.update_steps(
            addr,
            update.input,
        )
    } by {
        lemma_only_the_magic_number_opens(server.state@, data@, addr, outcome);
        lemma_what_packets_count_for(server.state@, data@);
    }
}

/// What the server does about an event, for every server and event. It stops when it
/// is told to and at no other time, and a datagram of another length than forty bytes
/// is only warned of.
pub proof fn lemma_calls_react_to_events(event: ServerEvent<'_>, action: ServerAction)
    ensures
        forall|server: &mut N3DSServer| #[trigger]
            call_ensures(N3DSServer::run, (server, event), action) ==> {
                &&& action is Stop <==> event is Cancelled
                &&& action is ReportFailure <==> event is ReceiveFailed
                &&& event !is Received ==> final(server).state@ == server.state@
                &&& event matches ServerEvent::Received { data, addr } ==> {
                    &&& action is WarnSize <==> data@.len() != 40
                    &&& action is WarnSize ==> final(server).state@ == server.state@
                    &&& action matches ServerAction::WarnSize { size, addr: sender } ==> size
                        == data@.len() && sender == addr
                    &&& action matches ServerAction::Packet { outcome, addr: sender } ==> sender
                        == addr && (outcome is Accepted <==> data@[0] == 0x3d && data@[1] == 0x5c)
                        && outcome !is Unreadable
                }
            },
{
    assert forall|server: &mut N3DSServer| #[trigger]
        call_ensures(N3DSServer::run, (server, event), action) implies {
        &&& action is Stop <==> event is Cancelled
        &&& action is ReportFailure <==> event is ReceiveFailed
        &&& event !is Received ==> final(server).state@ == server.state@
        &&& event matches ServerEvent::Received { data, addr } ==> {
            &&& action is WarnSize <==> data@.len() != 40
            &&& action is WarnSize ==> final(server).state@ == server.state@
            &&& action matches ServerAction::WarnSize { size, addr: sender } ==> size == data@.len()
                && sender == addr
            &&& action matches ServerAction::Packet { outcome, addr: sender } ==> sender == addr && (
            outcome is Accepted <==> data@[0] == 0x3d && data@[1] == 0x5c) && outcome !is Unreadable
        }
    } by {
        if let ServerEvent::Received { data, addr } = event {
            if let ServerAction::Packet { outcome, addr: sender } = action {
                lemma_only_the_magic_number_opens(server.state@, data@, addr, outcome);
            }
        }
    }
}

/// A server begins without clients and with nothing counted, and what it reports are
/// the counts of its state.
pub proof fn lemma_calls_report_the_counts(
    new: N3DSServer,
    addr: ClientAddr,
    server: N3DSServer,
    counts: (usize, u64, u64),
)
    ensures
        call_ensures(N3DSServer::new, (), new) ==> {
            &&& !new.state@.clients.dom().contains(addr)
            &&& new.state@.next_controller_id == 0
            &&& new.state@.total_packets == 0
            &&& new.state@.invalid_packets == 0
        },
        call_ensures(N3DSServer::get_state_snapshot, (&server,), counts) ==> {
            &&& counts.0 == server.state@.clients.dom().len()
            &&& counts.1 == server.state@.total_packets
            &&& counts.2 == server.state@.invalid_packets
        },
{
}

/// What the call answers that tests whether a packet can be dealt with.
pub proof fn lemma_calls_test_packets(
    server: N3DSServer,
    data: &[u8],
    addr: ClientAddr,
    possible: bool,
)
    ensures
        call_ensures(N3DSServer::can_handle, (&server, data, addr), possible) ==> {
            let state = server.state@;
            let input = RecvInput::read_from(data@);
            &&& data@.len() != 40 ==> possible
            &&& data@.len() == 40 && (data@[0] != 0x3d || data@[1] != 0x5c) ==> (possible
                <==> state.total_packets < u64::MAX && state.invalid_packets < u64::MAX)
            &&& data@.len() == 40 && data@[0] == 0x3d && data@[1] == 0x5c ==> (possible
                <==> state.total_packets < u64::MAX && (state.clients.dom().contains(addr) ==> (
            input.circlepad.y >= -32766 && input.cstick.y >= -32766)))
        },
{
    lemma_packets_are_not_held_up(server.state@, data@, addr);
}

} // verus!
