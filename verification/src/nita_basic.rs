//! A simpler drone without route checks: it
//! passes fragments to the hop its route names, reports drops to the
//! controller, and relays each new flood to all its neighbours.
use vstd::prelude::*;
use std::collections::HashSet;
use crate::packet::{
    NodeId, NodeType, Packet, PacketType, PacketView, PacketTypeView, FloodRequest,
    FloodRequestView, SourceRoutingHeader, DroneEvent, DroneEventView, copy_trace,
};
use crate::action::{Action, ActionView, actions_view, push_action};
use crate::command::DroneCommand;
use crate::neighbors::{NeighborSet, seq_add, seq_remove};
use crate::nita::{one_hop_view, random_session_id};

verus! {

broadcast use vstd::std_specs::hash::group_hash_axioms;

/// The state that the drone's decisions read: its id, the ids of the
/// neighbours it has a channel to, and the ids of the floods it has seen.
pub struct MyDrone {
    id: NodeId,
    neighbors: NeighborSet,
    flood_ids: HashSet<u64>,
}

/// Mathematical value of the drone's state.
pub struct BasicView {
    pub id: NodeId,
    pub neighbors: Seq<NodeId>,
    pub flood_ids: Set<u64>,
}

impl View for MyDrone {
    type V = BasicView;

    closed spec fn view(&self) -> BasicView {
        BasicView { id: self.id, neighbors: self.neighbors@, flood_ids: self.flood_ids@ }
    }
}

/// The new state and the actions of the drone `s` on `p`; `dropped` is the
/// outcome of the drop draw for a fragment and `fresh` the session ids drawn
/// for the packets it creates.
pub open spec fn basic_handle_spec(s: BasicView, p: PacketView, dropped: bool, fresh: Seq<u64>) -> (BasicView, Seq<ActionView>) {
    match p.pack_type {
        PacketTypeView::MsgFragment(_) => {
            if dropped {
                (s, seq![ActionView::Notify(DroneEventView::PacketDropped(p))])
            } else if s.neighbors.contains(p.header.hops[p.header.hop_index as int]) {
                (s, seq![ActionView::Forward { to: p.header.hops[p.header.hop_index as int], packet: p }])
            } else {
                (s, seq![])
            }
        },
        PacketTypeView::FloodRequest(fr) => {
            if s.flood_ids.contains(fr.flood_id) {
                (s, seq![])
            } else {
                let payload = PacketTypeView::FloodRequest(FloodRequestView {
                    flood_id: fr.flood_id,
                    initiator_id: fr.initiator_id,
                    path_trace: fr.path_trace.push((s.id, NodeType::Drone)),
                });
                (
                    BasicView { flood_ids: s.flood_ids.insert(fr.flood_id), ..s },
                    Seq::new(s.neighbors.len(), |i: int| ActionView::Forward {
                        to: s.neighbors[i],
                        packet: one_hop_view(payload, s.neighbors[i], fresh[i]),
                    }),
                )
            }
        },
        _ => (s, seq![]),
    }
}

/// The packets that the drone handles without failing on an index: a
/// fragment that is not dropped has a current hop.
pub open spec fn basic_handles_without_panic(p: PacketView, dropped: bool) -> bool {
    p.pack_type is MsgFragment && !dropped ==> p.header.hop_index < p.header.hops.len()
}

/// The state after a controller command; a crash changes nothing here.
pub open spec fn basic_command_spec(s: BasicView, command: DroneCommand) -> BasicView {
    match command {
        DroneCommand::AddSender(n) => BasicView { neighbors: seq_add(s.neighbors, n), ..s },
        DroneCommand::RemoveSender(n) => BasicView { neighbors: seq_remove(s.neighbors, n), ..s },
        _ => s,
    }
}

impl MyDrone {
    /// Well-formedness: each neighbour is listed once.
    pub open spec fn inv(&self) -> bool {
        self@.neighbors.no_duplicates()
    }

    /// A drone with the given id and neighbours and no flood seen yet.
    pub fn new(id: NodeId, neighbors: &Vec<NodeId>) -> (r: MyDrone)
        ensures
            r.inv(),
            r@.id == id,
            forall|x: NodeId| r@.neighbors.contains(x) <==> neighbors@.contains(x),
            neighbors@.no_duplicates() ==> r@.neighbors == neighbors@,
            r@.flood_ids == Set::<u64>::empty(),
    {
        MyDrone { id, neighbors: NeighborSet::from_ids(neighbors), flood_ids: HashSet::new() }
    }

    /// Whether `handle_packet` can take `packet` with this drop draw (see
    /// `basic_handles_without_panic`).
    pub fn can_handle(&self, packet: &Packet, dropped: bool) -> (r: bool)
        ensures
            r == basic_handles_without_panic(packet@, dropped),
    {
        match &packet.pack_type {
            PacketType::MsgFragment(_) => dropped || packet.routing_header.hop_index < packet.routing_header.hops.len(),
            _ => true,
        }
    }

    /// Reports a dropped packet to the controller.
    pub fn report_packet_dropped(&self, packet: &Packet) -> (r: Vec<Action>)
        ensures
            actions_view(r@) == seq![ActionView::Notify(DroneEventView::PacketDropped(packet@))],
    {
        let mut r: Vec<Action> = Vec::new();
        push_action(&mut r, Action::Notify(DroneEvent::PacketDropped(packet.clone())));
        assert(actions_view(r@) =~= seq![ActionView::Notify(DroneEventView::PacketDropped(packet@))]);
        r
    }

    /// Handles a packet with `fresh` the session ids for the packets it
    /// creates.
    pub fn handle_packet_with(&mut self, packet: Packet, dropped: bool, fresh: &Vec<u64>) -> (r: Vec<Action>)
        requires
            old(self).inv(),
            basic_handles_without_panic(packet@, dropped),
            fresh@.len() >= old(self)@.neighbors.len(),
        ensures
            final(self).inv(),
            (final(self)@, actions_view(r@)) == basic_handle_spec(old(self)@, packet@, dropped, fresh@),
    {
        let ghost p = packet@;
        match &packet.pack_type {
            PacketType::MsgFragment(_) => {
                if dropped {
                    return self.report_packet_dropped(&packet);
                }
                let next = packet.routing_header.hops[packet.routing_header.hop_index];
                let mut r: Vec<Action> = Vec::new();
                if self.neighbors.contains(next) {
                    push_action(&mut r, Action::Forward { to: next, packet });
                }
                assert(actions_view(r@) =~= basic_handle_spec(old(self)@, p, dropped, fresh@).1);
                r
            },
            PacketType::FloodRequest(flood_request) => {
                let mut r: Vec<Action> = Vec::new();
                if self.flood_ids.contains(&flood_request.flood_id) {
                    assert(actions_view(r@) =~= Seq::<ActionView>::empty());
                    return r;
                }
                self.flood_ids.insert(flood_request.flood_id);
                let mut trace = copy_trace(&flood_request.path_trace);
                trace.push((self.id, NodeType::Drone));
                let forwarded = FloodRequest {
                    flood_id: flood_request.flood_id,
                    initiator_id: flood_request.initiator_id,
                    path_trace: trace,
                };
                let ghost payload = PacketTypeView::FloodRequest(forwarded@);
                let ghost s0 = old(self)@;
                let mut i: usize = 0;
                while i < self.neighbors.len()
                    invariant
                        i <= self.neighbors@.len(),
                        self.neighbors@ == s0.neighbors,
                        fresh@.len() >= s0.neighbors.len(),
                        payload == PacketTypeView::FloodRequest(forwarded@),
                        actions_view(r@) =~= Seq::new(i as nat, |j: int| ActionView::Forward {
                            to: s0.neighbors[j],
                            packet: one_hop_view(payload, s0.neighbors[j], fresh@[j]),
                        }),
                    decreases self.neighbors@.len() - i,
                {
                    let neighbor_id = self.neighbors.get(i);
                    let mut hops: Vec<NodeId> = Vec::new();
                    hops.push(neighbor_id);
                    let new_packet = Packet {
                        pack_type: PacketType::FloodRequest(forwarded.clone()),
                        routing_header: SourceRoutingHeader { hop_index: 0, hops },
                        session_id: fresh[i],
                    };
                    assert(new_packet@.header.hops =~= seq![neighbor_id]);
                    push_action(&mut r, Action::Forward { to: neighbor_id, packet: new_packet });
                    i = i + 1;
                }
                r
            },
            _ => {
                let r: Vec<Action> = Vec::new();
                assert(actions_view(r@) =~= Seq::<ActionView>::empty());
                r
            },
        }
    }

    /// Handles a packet, drawing a fresh session id for each packet it
    /// creates. Whatever ids are drawn, the outcome is that of
    /// `basic_handle_spec` for some such ids.
    pub fn handle_packet(&mut self, packet: Packet, dropped: bool) -> (r: Vec<Action>)
        requires
            old(self).inv(),
            basic_handles_without_panic(packet@, dropped),
        ensures
            final(self).inv(),
            exists|fresh: Seq<u64>|
                fresh.len() == old(self)@.neighbors.len() && (final(self)@, actions_view(r@))
                    == basic_handle_spec(old(self)@, packet@, dropped, fresh),
    {
        let n = self.neighbors.len();
        let mut fresh: Vec<u64> = Vec::new();
        while fresh.len() < n
            invariant
                fresh@.len() <= n,
            decreases n - fresh@.len(),
        {
            fresh.push(random_session_id());
        }
        let r = self.handle_packet_with(packet, dropped, &fresh);
        assert(fresh@.len() == old(self)@.neighbors.len());
        r
    }

    /// Applies a controller command: senders are added and removed; the drop
    /// rate lives with the caller and a crash changes nothing here.
    pub fn handle_command(&mut self, command: DroneCommand)
        requires
            old(self).inv(),
        ensures
            final(self).inv(),
            final(self)@ == basic_command_spec(old(self)@, command),
            command matches DroneCommand::AddSender(n) ==> final(self)@.neighbors.contains(n),
            command matches DroneCommand::RemoveSender(n) ==> !final(self)@.neighbors.contains(n),
            forall|m: NodeId| (command matches DroneCommand::AddSender(n) && m != n) || (command matches DroneCommand::RemoveSender(n) && m != n)
                ==> (final(self)@.neighbors.contains(m) <==> old(self)@.neighbors.contains(m)),
    {
        match command {
            DroneCommand::AddSender(node_id) => self.neighbors.add(node_id),
            DroneCommand::RemoveSender(node_id) => self.neighbors.remove(node_id),
            _ => {},
        }
    }
}

} // verus!
