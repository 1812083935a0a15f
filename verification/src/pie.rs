//! A drone that passes packets one hop on, answers drops and routing errors
//! with negative acknowledgements sent back over the reversed route, and
//! floods requests to every neighbour but the one it came from.
use vstd::prelude::*;
use crate::packet::{
    NodeId, NackType, Packet, PacketType, PacketView, PacketTypeView, HeaderView,
    SourceRoutingHeader,
};
use crate::action::{Action, ActionView, Sound, actions_view, append_actions, push_action};
use crate::routing::{nack_of, nack_of_view};
use crate::command::DroneCommand;
use crate::neighbors::{NeighborSet, seq_add, seq_remove};

verus! {

/// The state that the drone's decisions read: its id and the ids of the
/// neighbours it has a channel to.
pub struct MyDrone {
    id: NodeId,
    packet_send: NeighborSet,
}

/// Mathematical value of the drone's state.
pub struct PieView {
    pub id: NodeId,
    pub neighbors: Seq<NodeId>,
}

impl View for MyDrone {
    type V = PieView;

    closed spec fn view(&self) -> PieView {
        PieView { id: self.id, neighbors: self.packet_send@ }
    }
}

/// Actions of sending the negative acknowledgement of `p` back: it goes to
/// the hop after the drone on its route back, that is the hop `p` came from,
/// when there is one and it is a neighbour.
pub open spec fn pie_nack_actions(s: PieView, p: PacketView, nack_type: NackType) -> Seq<ActionView> {
    let nack = nack_of_view(s.id, p, nack_type);
    if nack.header.hops.len() > 1 && s.neighbors.contains(nack.header.hops[1]) {
        seq![ActionView::Forward { to: nack.header.hops[1], packet: nack }]
    } else {
        seq![]
    }
}

/// Actions of passing `p` one hop on: to the next hop when it is a
/// neighbour, with the hop index moved on; back as an `ErrorInRouting`
/// negative acknowledgement when it is not; nothing when the route ends here.
pub open spec fn pie_forward_actions(s: PieView, p: PacketView) -> Seq<ActionView> {
    let h = p.header.hop_index + 1;
    if h < p.header.hops.len() {
        let next = p.header.hops[h as int];
        if s.neighbors.contains(next) {
            seq![ActionView::Forward {
                to: next,
                packet: PacketView {
                    pack_type: p.pack_type,
                    header: HeaderView { hop_index: h, hops: p.header.hops },
                    session_id: p.session_id,
                },
            }]
        } else {
            pie_nack_actions(s, p, NackType::ErrorInRouting(next))
        }
    } else {
        seq![]
    }
}

/// Whether `n` is not the hop that `p` came from.
pub open spec fn not_previous(p: PacketView) -> spec_fn(NodeId) -> bool {
    |n: NodeId| {
        let k = p.header.hop_index - 1;
        !(0 <= k < p.header.hops.len() && p.header.hops[k] == n)
    }
}

/// Actions of passing a flood request on, unchanged, to every neighbour but
/// the one it came from.
pub open spec fn pie_flood_actions(s: PieView, p: PacketView) -> Seq<ActionView> {
    s.neighbors.filter(not_previous(p)).map_values(|n: NodeId| ActionView::Forward { to: n, packet: p })
}

/// The actions of the drone `s` on `p`; `dropped` is the outcome of the drop
/// draw for a fragment.
pub open spec fn pie_handle_spec(s: PieView, p: PacketView, dropped: bool) -> Seq<ActionView> {
    match p.pack_type {
        PacketTypeView::Nack(_) => seq![ActionView::PlaySound(Sound::Fail)] + pie_forward_actions(s, p),
        PacketTypeView::MsgFragment(_) => {
            if dropped {
                seq![ActionView::PlaySound(Sound::Fail)] + pie_nack_actions(s, p, NackType::Dropped)
            } else {
                seq![ActionView::PlaySound(Sound::Success)] + pie_forward_actions(s, p)
            }
        },
        PacketTypeView::FloodRequest(_) => seq![ActionView::PlaySound(Sound::Success)] + pie_flood_actions(s, p),
        _ => seq![ActionView::PlaySound(Sound::Success)] + pie_forward_actions(s, p),
    }
}

/// The packets that the drone handles without failing on arithmetic: a
/// flood request came over at least one hop; anything passed on has a hop
/// index that can move on.
pub open spec fn pie_handles_without_panic(p: PacketView, dropped: bool) -> bool {
    match p.pack_type {
        PacketTypeView::FloodRequest(_) => p.header.hop_index >= 1,
        PacketTypeView::MsgFragment(_) => dropped || p.header.hop_index < usize::MAX,
        _ => p.header.hop_index < usize::MAX,
    }
}

/// The state after a controller command other than a crash.
pub open spec fn pie_command_spec(s: PieView, command: DroneCommand) -> PieView {
    match command {
        DroneCommand::AddSender(n) => PieView { neighbors: seq_add(s.neighbors, n), ..s },
        DroneCommand::RemoveSender(n) => PieView { neighbors: seq_remove(s.neighbors, n), ..s },
        _ => s,
    }
}

impl MyDrone {
    /// Well-formedness: each neighbour is listed once.
    pub open spec fn inv(&self) -> bool {
        self@.neighbors.no_duplicates()
    }

    /// A drone with the given id and neighbours.
    pub fn new(id: NodeId, packet_send: &Vec<NodeId>) -> (r: MyDrone)
        ensures
            r.inv(),
            r@.id == id,
            forall|x: NodeId| r@.neighbors.contains(x) <==> packet_send@.contains(x),
            packet_send@.no_duplicates() ==> r@.neighbors == packet_send@,
    {
        MyDrone { id, packet_send: NeighborSet::from_ids(packet_send) }
    }

    /// Sends the negative acknowledgement of `packet` back towards the hop it
    /// came from (see `pie_nack_actions`).
    pub fn send_nack(&self, packet: &Packet, nack_type: NackType) -> (r: Vec<Action>)
        ensures
            actions_view(r@) == pie_nack_actions(self@, packet@, nack_type),
    {
        let nack_packet = nack_of(self.id, packet, nack_type);
        let mut r: Vec<Action> = Vec::new();
        if nack_packet.routing_header.hops.len() > 1 {
            let to = nack_packet.routing_header.hops[1];
            if self.packet_send.contains(to) {
                push_action(&mut r, Action::Forward { to, packet: nack_packet });
            }
        }
        assert(actions_view(r@) =~= pie_nack_actions(self@, packet@, nack_type));
        r
    }

    /// Passes `packet` one hop on (see `pie_forward_actions`).
    pub fn forward_to_next_hop(&self, packet: Packet) -> (r: Vec<Action>)
        requires
            packet.routing_header.hop_index < usize::MAX,
        ensures
            actions_view(r@) == pie_forward_actions(self@, packet@),
    {
        let h = packet.routing_header.hop_index + 1;
        if h < packet.routing_header.hops.len() {
            let next_hop = packet.routing_header.hops[h];
            if self.packet_send.contains(next_hop) {
                let moved = Packet {
                    pack_type: packet.pack_type,
                    routing_header: SourceRoutingHeader {
                        hop_index: h,
                        hops: packet.routing_header.hops,
                    },
                    session_id: packet.session_id,
                };
                let mut r: Vec<Action> = Vec::new();
                push_action(&mut r, Action::Forward { to: next_hop, packet: moved });
                assert(actions_view(r@) =~= pie_forward_actions(self@, packet@));
                r
            } else {
                self.send_nack(&packet, NackType::ErrorInRouting(next_hop))
            }
        } else {
            let r: Vec<Action> = Vec::new();
            assert(actions_view(r@) =~= pie_forward_actions(self@, packet@));
            r
        }
    }

    /// Passes a flood request on to every neighbour but the previous hop.
    pub fn process_flood_request(&self, packet: Packet) -> (r: Vec<Action>)
        requires
            packet.routing_header.hop_index >= 1,
        ensures
            actions_view(r@) == pie_flood_actions(self@, packet@),
    {
        let current_hop_index = packet.routing_header.hop_index;
        let k = current_hop_index - 1;
        let mut r: Vec<Action> = Vec::new();
        let mut i: usize = 0;
        let ghost pv = packet@;
        while i < self.packet_send.len()
            invariant
                i <= self.packet_send@.len(),
                k == pv.header.hop_index - 1,
                pv == packet@,
                actions_view(r@) == self.packet_send@.take(i as int).filter(not_previous(pv)).map_values(
                    |n: NodeId| ActionView::Forward { to: n, packet: pv },
                ),
            decreases self.packet_send@.len() - i,
        {
            let neighbor_id = self.packet_send.get(i);
            let previous = k < packet.routing_header.hops.len() && packet.routing_header.hops[k] == neighbor_id;
            proof {
                reveal_with_fuel(Seq::filter, 1);
                assert(self.packet_send@.take(i + 1).drop_last() =~= self.packet_send@.take(i as int));
            }
            if !previous {
                push_action(&mut r, Action::Forward { to: neighbor_id, packet: packet.clone() });
            }
            i = i + 1;
            proof {
                let f = |n: NodeId| ActionView::Forward { to: n, packet: pv };
                let t0 = self.packet_send@.take(i - 1).filter(not_previous(pv));
                let t1 = self.packet_send@.take(i as int).filter(not_previous(pv));
                if !previous {
                    assert(t1 == t0.push(neighbor_id));
                    assert(t1.map_values(f) =~= t0.map_values(f).push(f(neighbor_id)));
                } else {
                    assert(t1 == t0);
                }
            }
        }
        assert(self.packet_send@.take(i as int) =~= self.packet_send@);
        r
    }

    /// Handles a packet received from a neighbour. `dropped` is the outcome
    /// of the drop draw, used for fragments.
    pub fn handle_packet(&self, packet: Packet, dropped: bool) -> (r: Vec<Action>)
        requires
            pie_handles_without_panic(packet@, dropped),
        ensures
            actions_view(r@) == pie_handle_spec(self@, packet@, dropped),
    {
        let mut r: Vec<Action> = Vec::new();
        match &packet.pack_type {
            PacketType::Nack(_) => {
                push_action(&mut r, Action::PlaySound(Sound::Fail));
                append_actions(&mut r, self.forward_to_next_hop(packet));
            },
            PacketType::Ack(_) => {
                push_action(&mut r, Action::PlaySound(Sound::Success));
                append_actions(&mut r, self.forward_to_next_hop(packet));
            },
            PacketType::MsgFragment(_) => {
                if dropped {
                    push_action(&mut r, Action::PlaySound(Sound::Fail));
                    append_actions(&mut r, self.send_nack(&packet, NackType::Dropped));
                } else {
                    push_action(&mut r, Action::PlaySound(Sound::Success));
                    append_actions(&mut r, self.forward_to_next_hop(packet));
                }
            },
            PacketType::FloodRequest(_) => {
                push_action(&mut r, Action::PlaySound(Sound::Success));
                append_actions(&mut r, self.process_flood_request(packet));
            },
            PacketType::FloodResponse(_) => {
                push_action(&mut r, Action::PlaySound(Sound::Success));
                append_actions(&mut r, self.forward_to_next_hop(packet));
            },
        }
        r
    }

    /// Applies a controller command other than a crash (the main loop stops
    /// on a crash before it gets here).
    pub fn handle_command(&mut self, command: DroneCommand)
        requires
            old(self).inv(),
            !(command is Crash),
        ensures
            final(self).inv(),
            final(self)@ == pie_command_spec(old(self)@, command),
            command matches DroneCommand::AddSender(n) ==> final(self)@.neighbors.contains(n),
            command matches DroneCommand::RemoveSender(n) ==> !final(self)@.neighbors.contains(n),
            forall|m: NodeId| (command matches DroneCommand::AddSender(n) && m != n) || (command matches DroneCommand::RemoveSender(n) && m != n)
                ==> (final(self)@.neighbors.contains(m) <==> old(self)@.neighbors.contains(m)),
    {
        match command {
            DroneCommand::AddSender(node_id) => self.packet_send.add(node_id),
            DroneCommand::SetPacketDropRate => {},
            DroneCommand::RemoveSender(node_id) => self.packet_send.remove(node_id),
            DroneCommand::Crash => {},
        }
    }

    /// One step of the main loop on a controller command: a crash stops the
    /// loop (`true`); any other command is applied.
    pub fn step_command(&mut self, command: DroneCommand) -> (stop: bool)
        requires
            old(self).inv(),
        ensures
            final(self).inv(),
            stop == (command is Crash),
            stop ==> final(self)@ == old(self)@,
            !stop ==> final(self)@ == pie_command_spec(old(self)@, command),
    {
        match command {
            DroneCommand::Crash => true,
            _ => {
                self.handle_command(command);
                false
            },
        }
    }

    /// Whether `handle_packet` can take `packet` with this drop draw (see
    /// `pie_handles_without_panic`).
    pub fn can_handle(&self, packet: &Packet, dropped: bool) -> (r: bool)
        ensures
            r == pie_handles_without_panic(packet@, dropped),
    {
        match &packet.pack_type {
            PacketType::FloodRequest(_) => packet.routing_header.hop_index >= 1,
            PacketType::MsgFragment(_) => dropped || packet.routing_header.hop_index < usize::MAX,
            _ => packet.routing_header.hop_index < usize::MAX,
        }
    }
}

} // verus!
