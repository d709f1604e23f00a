//! The clients that a server knows and the packets that it has counted.

use vstd::prelude::*;

use crate::controller::{setup_script, ControllerSetup, VirtualXboxController};
use crate::packet::RecvInput;

verus! {

/// The address that a client sends from.
#[derive(Clone, Copy, Debug, PartialEq, Eq, Structural)]
pub enum ClientAddr {
    V4 { ipv4: u32, port: u16 },
    V6 { ipv6: u128, port: u16, flowinfo: u32, scope_id: u32 },
}

/// A connected client with its controller.
#[derive(Debug, PartialEq, Eq, Structural)]
pub struct ConnectedClient {
    pub controller: VirtualXboxController,
    /// The last report that was replayed in full.
    pub last_input: RecvInput,
}

/// The clients and counters of a server, as mathematical values.
#[verifier::ext_equal]
pub struct StateModel {
    pub clients: Map<ClientAddr, ConnectedClient>,
    pub next_controller_id: nat,
    /// The packets of the length of a report that have been received. A report counts
    /// from when its replay begins, whatever becomes of it.
    pub total_packets: nat,
    /// Those with a wrong magic number.
    pub invalid_packets: nat,
}

/// A client that has not sent a report yet.
pub open spec fn fresh_client(controller_id: nat) -> ConnectedClient {
    ConnectedClient {
        controller: VirtualXboxController { controller_id: controller_id as usize },
        last_input: RecvInput::all_zero(),
    }
}

impl StateModel {
    /// No clients, and nothing counted.
    pub open spec fn initial() -> StateModel {
        StateModel {
            clients: Map::empty(),
            next_controller_id: 0,
            total_packets: 0,
            invalid_packets: 0,
        }
    }

    /// Whether a client has sent from `addr` before.
    pub open spec fn knows(self, addr: ClientAddr) -> bool {
        self.clients.dom().contains(addr)
    }

    /// Whether the client at `addr` has the controller with this number.
    pub open spec fn has_controller(self, addr: ClientAddr, number: int) -> bool {
        self.knows(addr) && self.clients[addr].controller.controller_id == number
    }

    /// Whether some client has the controller with this number.
    pub open spec fn is_handed_out(self, number: int) -> bool {
        exists|addr: ClientAddr| #[trigger] self.has_controller(addr, number)
    }

    /// There are as many clients as controllers have been handed out, their numbers
    /// run from zero without gaps, and no two clients share one.
    pub open spec fn valid(self) -> bool {
        &&& self.clients.dom().finite()
        &&& self.clients.len() == self.next_controller_id
        &&& forall|addr: ClientAddr| #[trigger]
            self.clients.dom().contains(addr) ==> self.clients[addr].controller.controller_id
                < self.next_controller_id
        &&& forall|a1: ClientAddr, a2: ClientAddr|
            #![trigger self.clients.dom().contains(a1), self.clients.dom().contains(a2)]
            self.clients.dom().contains(a1) && self.clients.dom().contains(a2) && a1 != a2
                ==> self.clients[a1].controller != self.clients[a2].controller
        &&& forall|number: int|
            0 <= number < self.next_controller_id ==> #[trigger] self.is_handed_out(number)
    }

    /// The state once there is a client at `addr`: a new one gets the next
    /// controller.
    pub open spec fn with_client(self, addr: ClientAddr) -> StateModel {
        if self.knows(addr) {
            self
        } else {
            StateModel {
                clients: self.clients.insert(addr, fresh_client(self.next_controller_id)),
                next_controller_id: self.next_controller_id + 1,
                ..self
            }
        }
    }

    /// The state once a report from `addr` has been replayed.
    pub open spec fn with_input(self, addr: ClientAddr, input: RecvInput) -> StateModel {
        let client = ConnectedClient { last_input: input, ..self.clients[addr] };
        StateModel {
            clients: self.clients.insert(addr, client),
            ..self
        }
    }

    /// The state once one more packet has been counted as received.
    pub open spec fn with_packet(self) -> StateModel {
        StateModel { total_packets: self.total_packets + 1, ..self }
    }

    /// The state once one more packet has been counted as invalid.
    pub open spec fn with_invalid_packet(self) -> StateModel {
        StateModel { invalid_packets: self.invalid_packets + 1, ..self }
    }
}

/// The clients and counters of a server. Clients are listed in the order in which
/// they connected.
#[derive(Debug)]
pub struct ServerState {
    clients: Vec<(ClientAddr, ConnectedClient)>,
    next_controller_id: usize,
    /// The packets of the length of a report that have been received. A report counts
    /// from when its replay begins, whatever becomes of it.
    total_packets: u64,
    /// Those with a wrong magic number.
    invalid_packets: u64,
}

/// What a look-up of a client gives.
#[derive(Debug, PartialEq, Eq)]
pub enum ClientAccess {
    /// The client is connected and has this controller.
    Known(VirtualXboxController),
    /// The client is new: its controller has to be created.
    Create(ControllerSetup),
}

/// The addresses in a list of clients.
spec fn addresses(clients: Seq<(ClientAddr, ConnectedClient)>) -> Seq<ClientAddr> {
    clients.map_values(|entry: (ClientAddr, ConnectedClient)| entry.0)
}

/// The list of clients as a map.
spec fn client_map(clients: Seq<(ClientAddr, ConnectedClient)>) -> Map<
    ClientAddr,
    ConnectedClient,
> {
    Map::new(
        |addr: ClientAddr| addresses(clients).contains(addr),
        |addr: ClientAddr| clients[addresses(clients).index_of(addr)].1,
    )
}

impl View for ServerState {
    type V = StateModel;

    closed spec fn view(&self) -> StateModel {
        StateModel {
            clients: client_map(self.clients@),
            next_controller_id: self.next_controller_id as nat,
            total_packets: self.total_packets as nat,
            invalid_packets: self.invalid_packets as nat,
        }
    }
}

impl ServerState {
    /// No address is listed twice, and the controllers are numbered in the order
    /// in which the clients connected.
    pub closed spec fn wf(self) -> bool {
        &&& addresses(self.clients@).no_duplicates()
        &&& self.next_controller_id == self.clients@.len()
        &&& forall|i: int|
            0 <= i < self.clients@.len() ==> (#[trigger] self.clients@[i]).1.controller.controller_id == i
    }

    /// A server without clients.
    pub fn new() -> (state: Self)
        ensures
            state.wf(),
            state@ == StateModel::initial(),
    {
        ServerState {
            clients: Vec::new(),
            next_controller_id: 0,
            total_packets: 0,
            invalid_packets: 0,
        }
    }

    /// The place of `addr` in the list of clients.
    fn position(&self, addr: ClientAddr) -> (place: Option<usize>)
        requires
            self.wf(),
        ensures
            place is Some <==> self@.knows(addr),
            place matches Some(i) ==> i < self.clients@.len() && self.clients@[i as int].0 == addr
                && self@.clients[addr] == self.clients@[i as int].1,
    {
        let mut i: usize = 0;
        while i < self.clients.len()
            invariant
                self.wf(),
                i <= self.clients@.len(),
                forall|j: int| 0 <= j < i ==> (#[trigger] self.clients@[j]).0 != addr,
            decreases self.clients@.len() - i,
        {
            if self.clients[i].0 == addr {
                proof {
                    let all = addresses(self.clients@);
                    assert(all[i as int] == addr);
                    assert(all.index_of(addr) == i);
                }
                return Some(i);
            }
            i = i + 1;
        }
        None
    }

    /// Looks up the client at `addr`. Where there is none, it says how to create the
    /// next controller; [`Self::add_client`] enters the client once that is done.
    pub fn get_or_create_client(&self, addr: ClientAddr) -> (access: ClientAccess)
        requires
            self.wf(),
        ensures
            self@.knows(addr) ==> access == ClientAccess::Known(self@.clients[addr].controller),
            !self@.knows(addr) ==> (access matches ClientAccess::Create(setup) && setup.controller_id
                == self@.next_controller_id && setup.commands@ == setup_script()),
    {
        match self.position(addr) {
            Some(i) => ClientAccess::Known(self.clients[i].1.controller),
            None => ClientAccess::Create(VirtualXboxController::new(self.next_controller_id)),
        }
    }

    /// Enters a client whose controller has been created.
    pub fn add_client(&mut self, addr: ClientAddr, controller: VirtualXboxController)
        requires
            old(self).wf(),
            !old(self)@.knows(addr),
            controller.controller_id == old(self)@.next_controller_id,
            old(self)@.next_controller_id < usize::MAX,
        ensures
            final(self).wf(),
            final(self)@ == old(self)@.with_client(addr),
    {
        let client = ConnectedClient { controller, last_input: RecvInput::zeroed() };
        self.clients.push((addr, client));
        self.next_controller_id = self.next_controller_id + 1;
        proof {
            lemma_push_client(old(self).clients@, addr, client);
        }
    }

    /// Notes that a report has been replayed in full.
    pub fn record_input(&mut self, addr: ClientAddr, input: RecvInput)
        requires
            old(self).wf(),
            old(self)@.knows(addr),
        ensures
            final(self).wf(),
            final(self)@ == old(self)@.with_input(addr, input),
    {
        if let Some(i) = self.position(addr) {
            let client = ConnectedClient { controller: self.clients[i].1.controller, last_input: input };
            self.clients[i] = (addr, client);
            proof {
                lemma_update_client(old(self).clients@, i as int, client);
            }
        }
    }

    /// The number of clients, of packets received and of invalid ones among them.
    pub fn snapshot(&self) -> (counts: (usize, u64, u64))
        requires
            self.wf(),
        ensures
            counts.0 == self@.clients.len(),
            counts.1 == self@.total_packets,
            counts.2 == self@.invalid_packets,
    {
        proof {
            lemma_client_count(self.clients@);
        }
        (self.clients.len(), self.total_packets, self.invalid_packets)
    }

    /// Whether one more client can be numbered.
    pub fn can_add_client(&self) -> (possible: bool)
        ensures
            possible == (self@.next_controller_id < usize::MAX),
    {
        self.next_controller_id < usize::MAX
    }

    /// Counts a packet as received.
    pub fn record_packet(&mut self)
        requires
            old(self).wf(),
            old(self)@.total_packets < u64::MAX,
        ensures
            final(self).wf(),
            final(self)@ == old(self)@.with_packet(),
    {
        self.total_packets = self.total_packets + 1;
    }

    /// Counts a packet as invalid: its magic number is wrong.
    pub fn record_invalid_packet(&mut self)
        requires
            old(self).wf(),
            old(self)@.invalid_packets < u64::MAX,
        ensures
            final(self).wf(),
            final(self)@ == old(self)@.with_invalid_packet(),
    {
        self.invalid_packets = self.invalid_packets + 1;
    }
}

/// A list without duplicates has as many clients as its map.
proof fn lemma_client_count(clients: Seq<(ClientAddr, ConnectedClient)>)
    requires
        addresses(clients).no_duplicates(),
    ensures
        client_map(clients).dom().finite(),
        client_map(clients).len() == clients.len(),
{
    let all = addresses(clients);
    all.unique_seq_to_set();
    assert(client_map(clients).dom() =~= all.to_set());
    vstd::seq_lib::seq_to_set_is_finite(all);
}

/// A new client at the end of the list is a new entry of the map.
proof fn lemma_push_client(
    clients: Seq<(ClientAddr, ConnectedClient)>,
    addr: ClientAddr,
    client: ConnectedClient,
)
    requires
        addresses(clients).no_duplicates(),
        !client_map(clients).dom().contains(addr),
    ensures
        addresses(clients.push((addr, client))).no_duplicates(),
        client_map(clients.push((addr, client))) == client_map(clients).insert(addr, client),
{
    let after = clients.push((addr, client));
    assert(addresses(after) =~= addresses(clients).push(addr));
    assert forall|a: ClientAddr| addresses(after).contains(a) <==> (a == addr || addresses(
        clients,
    ).contains(a)) by {
        assert(addresses(after)[clients.len() as int] == addr);
        if addresses(clients).contains(a) {
            assert(addresses(after)[addresses(clients).index_of(a)] == a);
        }
    }
    assert forall|a: ClientAddr| #[trigger] addresses(after).contains(a) implies client_map(
        after,
    )[a] == client_map(clients).insert(addr, client)[a] by {
        let j = addresses(after).index_of(a);
        assert(addresses(after)[j] == a);
        if a != addr {
            assert(addresses(clients)[j] == a);
        }
    }
    assert(client_map(after) =~= client_map(clients).insert(addr, client));
}

/// Replacing a client in the list replaces its entry of the map.
proof fn lemma_update_client(
    clients: Seq<(ClientAddr, ConnectedClient)>,
    i: int,
    client: ConnectedClient,
)
    requires
        addresses(clients).no_duplicates(),
        0 <= i < clients.len(),
    ensures
        addresses(clients.update(i, (clients[i].0, client))) == addresses(clients),
        client_map(clients.update(i, (clients[i].0, client))) == client_map(clients).insert(
            clients[i].0,
            client,
        ),
{
    let addr = clients[i].0;
    let after = clients.update(i, (addr, client));
    let all = addresses(clients);
    assert(addresses(after) =~= all);
    assert(all[i] == addr);
    assert(client_map(after) =~= client_map(clients).insert(addr, client));
}

/// Every state that a server can be in is valid: its controllers are numbered from
/// zero without gaps, each for one client.
pub proof fn lemma_server_state_is_valid(state: ServerState)
    requires
        state.wf(),
    ensures
        state@.valid(),
{
    lemma_client_count(state.clients@);
    let all = addresses(state.clients@);
    assert forall|a: ClientAddr| #[trigger] state@.clients.dom().contains(a) implies all[all.index_of(
        a,
    )] == a && 0 <= all.index_of(a) < all.len() && state@.clients[a].controller.controller_id
        == all.index_of(a) by {
        assert(state.clients@[all.index_of(a)].0 == a);
    }
    assert forall|number: int| 0 <= number < state@.next_controller_id implies #[trigger] state@.is_handed_out(
        number,
    ) by {
        let addr = state.clients@[number].0;
        assert(all[number] == addr);
        assert(state@.has_controller(addr, number));
    }
}

/// Whether a state is valid does not depend on the packets counted.
proof fn lemma_counters_do_not_matter(s1: StateModel, s2: StateModel)
    requires
        s1.valid(),
        s1.clients == s2.clients,
        s1.next_controller_id == s2.next_controller_id,
    ensures
        s2.valid(),
{
    assert forall|number: int| 0 <= number < s2.next_controller_id implies #[trigger] s2.is_handed_out(
        number,
    ) by {
        assert(s1.is_handed_out(number));
        let addr = choose|addr: ClientAddr| #[trigger] s1.has_controller(addr, number);
        assert(s2.has_controller(addr, number));
    }
}

/// A valid state stays valid whatever happens: when a client connects, when a
/// report has been replayed, and when a packet is counted.
pub proof fn lemma_changes_keep_state_valid(state: StateModel, addr: ClientAddr, input: RecvInput)
    requires
        state.valid(),
        state.next_controller_id < usize::MAX,
    ensures
        StateModel::initial().valid(),
        state.with_client(addr).valid(),
        state.knows(addr) ==> state.with_input(addr, input).valid(),
        state.with_packet().valid(),
        state.with_invalid_packet().valid(),
{
    let connected = state.with_client(addr);
    assert forall|number: int| 0 <= number < connected.next_controller_id implies #[trigger] connected.is_handed_out(
        number,
    ) by {
        if number < state.next_controller_id {
            assert(state.is_handed_out(number));
            let a = choose|a: ClientAddr| #[trigger] state.has_controller(a, number);
            assert(connected.has_controller(a, number));
        } else {
            assert(connected.has_controller(addr, number));
        }
    }
    if state.knows(addr) {
        let replayed = state.with_input(addr, input);
        assert(replayed.clients.dom() =~= state.clients.dom());
        assert forall|number: int| 0 <= number < replayed.next_controller_id implies #[trigger] replayed.is_handed_out(
            number,
        ) by {
            assert(state.is_handed_out(number));
            let a = choose|a: ClientAddr| #[trigger] state.has_controller(a, number);
            assert(replayed.has_controller(a, number));
        }
    }
    lemma_counters_do_not_matter(state, state.with_packet());
    lemma_counters_do_not_matter(state, state.with_invalid_packet());
}

/// Clients come to stay: no change removes one or hands its controller on, and
/// the last report of a client changes by its own reports alone.
pub proof fn lemma_clients_keep_their_controllers(
    state: StateModel,
    addr: ClientAddr,
    input: RecvInput,
    other: ClientAddr,
)
    requires
        state.knows(other),
    ensures
        state.with_client(addr).knows(other),
        state.with_client(addr).clients[other] == state.clients[other],
        state.knows(addr) ==> state.with_input(addr, input).knows(other),
        state.knows(addr) ==> state.with_input(addr, input).clients[other].controller
            == state.clients[other].controller,
        state.knows(addr) && addr != other ==> state.with_input(addr, input).clients[other]
            == state.clients[other],
        state.with_packet().clients == state.clients,
        state.with_invalid_packet().clients == state.clients,
{
}

/// What each change of the state changes, and what it leaves alone: a new client gets
/// the next number and a blank report, a replay sets the last report of its own client,
/// and the counts go up by one each on their own.
pub proof fn lemma_changes_are_local(
    state: StateModel,
    addr: ClientAddr,
    input: RecvInput,
    other: ClientAddr,
)
    requires
        state.next_controller_id < usize::MAX,
    ensures
        ({
            let after = state.with_client(addr);
            &&& after.knows(other) <==> state.knows(other) || other == addr
            &&& state.knows(other) ==> after.clients[other] == state.clients[other]
            &&& !state.knows(addr) ==> after.clients[addr].controller.controller_id
                == state.next_controller_id && after.clients[addr].last_input
                == RecvInput::all_zero()
            &&& after.next_controller_id - state.next_controller_id == (if state.knows(addr) {
                0int
            } else {
                1int
            })
            &&& after.total_packets == state.total_packets
            &&& after.invalid_packets == state.invalid_packets
        }),
        state.knows(addr) ==> {
            let after = state.with_input(addr, input);
            &&& after.knows(other) <==> state.knows(other)
            &&& after.clients[addr].last_input == input
            &&& after.clients[addr].controller == state.clients[addr].controller
            &&& state.knows(other) && other != addr ==> after.clients[other]
                == state.clients[other]
            &&& after.next_controller_id == state.next_controller_id
            &&& after.total_packets == state.total_packets
            &&& after.invalid_packets == state.invalid_packets
        },
        ({
            let after = state.with_packet();
            &&& after.clients == state.clients
            &&& after.next_controller_id == state.next_controller_id
            &&& after.total_packets == state.total_packets + 1
            &&& after.invalid_packets == state.invalid_packets
        }),
        ({
            let after = state.with_invalid_packet();
            &&& after.clients == state.clients
            &&& after.next_controller_id == state.next_controller_id
            &&& after.total_packets == state.total_packets
            &&& after.invalid_packets == state.invalid_packets + 1
        }),
{
}

/// What the calls on a state answer: a client is known with the controller that it
/// has, and a new one is offered the next number.
pub proof fn lemma_calls_look_clients_up(
    state: ServerState,
    addr: ClientAddr,
    access: ClientAccess,
    counts: (usize, u64, u64),
)
    ensures
        call_ensures(ServerState::get_or_create_client, (&state, addr), access) ==> {
            &&& access is Known <==> state@.clients.dom().contains(addr)
            &&& access matches ClientAccess::Known(controller) ==> controller
                == state@.clients[addr].controller
            &&& access matches ClientAccess::Create(setup) ==> setup.controller_id
                == state@.next_controller_id && setup.commands@ == setup_script()
        },
        call_ensures(ServerState::snapshot, (&state,), counts) ==> counts.0
            == state@.clients.dom().len() && counts.1 == state@.total_packets && counts.2
            == state@.invalid_packets,
{
}

/// What the calls that change a state do to it.
pub proof fn lemma_calls_change_the_state(
    addr: ClientAddr,
    controller: VirtualXboxController,
    input: RecvInput,
)
    ensures
        forall|state: &mut ServerState| #[trigger]
            call_ensures(ServerState::record_packet, (state,), ()) ==> {
                let after = final(state)@;
                &&& after.total_packets == state@.total_packets + 1
                &&& after.invalid_packets == state@.invalid_packets
                &&& after.clients == state@.clients
                &&& after.next_controller_id == state@.next_controller_id
            },
        forall|state: &mut ServerState| #[trigger]
            call_ensures(ServerState::record_invalid_packet, (state,), ()) ==> {
                let after = final(state)@;
                &&& after.total_packets == state@.total_packets
                &&& after.invalid_packets == state@.invalid_packets + 1
                &&& after.clients == state@.clients
                &&& after.next_controller_id == state@.next_controller_id
            },
        forall|state: &mut ServerState| #[trigger]
            call_ensures(ServerState::add_client, (state, addr, controller), ())
                && !state@.clients.dom().contains(addr) && state@.next_controller_id < usize::MAX
                ==> {
                let after = final(state)@;
                &&& after.clients.dom() =~= state@.clients.dom().insert(addr)
                &&& after.clients.remove(addr) =~= state@.clients
                &&& after.clients[addr].controller.controller_id == state@.next_controller_id
                &&& after.clients[addr].last_input.network_bytes() =~= Seq::new(40, |i: int| 0u8)
                &&& after.next_controller_id == state@.next_controller_id + 1
                &&& after.total_packets == state@.total_packets
                &&& after.invalid_packets == state@.invalid_packets
            },
        forall|state: &mut ServerState| #[trigger]
            call_ensures(ServerState::record_input, (state, addr, input), ())
                && state@.clients.dom().contains(addr) ==> {
                let after = final(state)@;
                &&& after.clients.dom() =~= state@.clients.dom()
                &&& after.clients.remove(addr) =~= state@.clients.remove(addr)
                &&& after.clients[addr].last_input == input
                &&& after.clients[addr].controller == state@.clients[addr].controller
                &&& after.next_controller_id == state@.next_controller_id
                &&& after.total_packets == state@.total_packets
                &&& after.invalid_packets == state@.invalid_packets
            },
{
}

/// A server begins without clients and with nothing counted, and one more client can
/// be numbered as long as the next number has a successor.
pub proof fn lemma_calls_begin_with_nothing(
    new: ServerState,
    addr: ClientAddr,
    state: ServerState,
    possible: bool,
)
    ensures
        call_ensures(ServerState::new, (), new) ==> {
            &&& !new@.clients.dom().contains(addr)
            &&& new@.next_controller_id == 0
            &&& new@.total_packets == 0
            &&& new@.invalid_packets == 0
        },
        call_ensures(ServerState::can_add_client, (&state,), possible) ==> (possible
            <==> state@.next_controller_id + 1 <= usize::MAX),
{
}

} // verus!
