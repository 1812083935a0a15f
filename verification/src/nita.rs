//! A drone that checks each packet's route before handling it, reports the
//! packets it refuses to the controller as negative acknowledgements, and
//! answers or relays floods hop by hop with fresh session ids.
use vstd::prelude::*;
use std::collections::HashSet;
use crate::packet::{
    NodeId, NodeType, NackType, Packet, PacketType, PacketView, PacketTypeView, HeaderView,
    FloodRequest, FloodResponse, FloodRequestView, FloodResponseView, SourceRoutingHeader,
    DroneEvent, DroneEventView, trace_ids, trace_node_ids, copy_trace,
};
use crate::action::{Action, ActionView, Sound, actions_view, push_action};
use crate::routing::{nack_of, nack_of_view, reverse_hops};
use crate::command::DroneCommand;
use crate::neighbors::{NeighborSet, seq_add, seq_remove};

verus! {

broadcast use vstd::std_specs::hash::group_hash_axioms;

/// Calls `rand::random::<u64>()`: a session id drawn at random. Nothing is
/// promised of the value.
#[verifier::external_body]
pub(crate) fn random_session_id() -> u64 {
    rand::random::<u64>()
}

/// The state that the drone's decisions read: its id, the ids of the
/// neighbours it has a channel to, and the ids of the floods it has seen.
pub struct MyDrone {
    id: NodeId,
    neighbors: NeighborSet,
    flood_ids: HashSet<u64>,
}

/// Mathematical value of the drone's state.
pub struct NitaView {
    pub id: NodeId,
    pub neighbors: Seq<NodeId>,
    pub flood_ids: Set<u64>,
}

impl View for MyDrone {
    type V = NitaView;

    closed spec fn view(&self) -> NitaView {
        NitaView { id: self.id, neighbors: self.neighbors@, flood_ids: self.flood_ids@ }
    }
}

/// Actions of reporting the negative acknowledgement of `p` to the
/// controller.
pub open spec fn nita_nack_actions(s: NitaView, p: PacketView, nack_type: NackType) -> Seq<ActionView> {
    seq![ActionView::Notify(DroneEventView::PacketDropped(nack_of_view(s.id, p, nack_type)))]
}

/// The route check: the packet must be at this drone and must have a next
/// hop; a packet that fails it is answered with a negative acknowledgement.
pub open spec fn verify_spec(s: NitaView, p: PacketView) -> (bool, Seq<ActionView>) {
    let h = p.header.hop_index as int;
    let hops = p.header.hops;
    if !(h < hops.len() && hops[h] == s.id) {
        (false, nita_nack_actions(s, p, NackType::UnexpectedRecipient(s.id)))
    } else if h + 1 >= hops.len() {
        (false, nita_nack_actions(s, p, NackType::DestinationIsDrone))
    } else {
        (true, seq![])
    }
}

/// Actions of sending `p` to the first hop of its route, when that hop is a
/// neighbour.
pub open spec fn nita_send_actions(s: NitaView, p: PacketView) -> Seq<ActionView> {
    if p.header.hops.len() > 0 && s.neighbors.contains(p.header.hops[0]) {
        seq![ActionView::Forward { to: p.header.hops[0], packet: p }]
    } else {
        seq![]
    }
}

/// A one-hop packet to `to` with the given payload and session id.
pub open spec fn one_hop_view(pack_type: PacketTypeView, to: NodeId, session_id: u64) -> PacketView {
    PacketView { pack_type, header: HeaderView { hop_index: 0, hops: seq![to] }, session_id }
}

/// How many fresh session ids handling a packet may use.
pub open spec fn fresh_needed(s: NitaView) -> nat {
    if s.neighbors.len() == 0 { 1 } else { s.neighbors.len() }
}

/// The new state and the actions of the drone `s` on a packet `p` that has
/// passed the route check; `dropped` is the outcome of the drop draw for a
/// fragment and `fresh` the session ids drawn for new packets.
pub open spec fn nita_handle_spec(s: NitaView, p: PacketView, dropped: bool, fresh: Seq<u64>) -> (NitaView, Seq<ActionView>) {
    let h = p.header.hop_index as int;
    match p.pack_type {
        PacketTypeView::MsgFragment(_) => {
            if dropped {
                (s, seq![])
            } else if s.neighbors.contains(p.header.hops[h + 1]) {
                (s, seq![ActionView::Forward { to: p.header.hops[h + 1], packet: p }])
            } else {
                (s, seq![])
            }
        },
        PacketTypeView::FloodRequest(fr) => {
            if s.flood_ids.contains(fr.flood_id) {
                (s, nita_nack_actions(s, p, NackType::ErrorInRouting(1)))
            } else {
                let s2 = NitaView { flood_ids: s.flood_ids.insert(fr.flood_id), ..s };
                let trace = fr.path_trace.push((s.id, NodeType::Drone));
                if s.neighbors.len() == 0 {
                    let resp = PacketView {
                        pack_type: PacketTypeView::FloodResponse(FloodResponseView { flood_id: fr.flood_id, path_trace: trace }),
                        header: HeaderView { hop_index: 0, hops: trace_ids(trace).reverse() },
                        session_id: fresh[0],
                    };
                    (s2, nita_send_actions(s, resp))
                } else {
                    let payload = PacketTypeView::FloodRequest(
                        FloodRequestView { flood_id: fr.flood_id, initiator_id: fr.initiator_id, path_trace: trace },
                    );
                    (s2, Seq::new(s.neighbors.len(), |i: int| ActionView::Forward {
                        to: s.neighbors[i],
                        packet: one_hop_view(payload, s.neighbors[i], fresh[i]),
                    }))
                }
            }
        },
        PacketTypeView::FloodResponse(fr) => {
            if fr.path_trace.len() == 0 {
                (s, seq![])
            } else {
                let next = fr.path_trace.last().0;
                if s.neighbors.contains(next) {
                    let payload = PacketTypeView::FloodResponse(
                        FloodResponseView { flood_id: fr.flood_id, path_trace: fr.path_trace.drop_last() },
                    );
                    (s, seq![ActionView::Forward { to: next, packet: one_hop_view(payload, next, fresh[0]) }])
                } else {
                    (s, seq![])
                }
            }
        },
        _ => (s, seq![]),
    }
}

/// The packets that the handling takes without failing on an index: a
/// fragment that is not dropped has a next hop.
pub open spec fn nita_handles_without_panic(p: PacketView, dropped: bool) -> bool {
    p.pack_type is MsgFragment && !dropped ==> p.header.hop_index + 1 < p.header.hops.len()
}

/// One step of the main loop on a packet: the route check, then, for a
/// packet that passes it, the handling and the sound of a received packet.
pub open spec fn nita_step_spec(s: NitaView, p: PacketView, dropped: bool, fresh: Seq<u64>) -> (NitaView, Seq<ActionView>) {
    let v = verify_spec(s, p);
    if v.0 {
        let r = nita_handle_spec(s, p, dropped, fresh);
        (r.0, r.1 + seq![ActionView::PlaySound(Sound::Received)])
    } else {
        (s, v.1)
    }
}

/// The state after a controller command: senders are added and removed;
/// the drop rate lives with the caller and a crash changes nothing.
pub open spec fn nita_command_spec(s: NitaView, command: DroneCommand) -> NitaView {
    match command {
        DroneCommand::AddSender(n) => NitaView { neighbors: seq_add(s.neighbors, n), ..s },
        DroneCommand::RemoveSender(n) => NitaView { neighbors: seq_remove(s.neighbors, n), ..s },
        _ => s,
    }
}

impl MyDrone {
    /// Well-formedness: each neighbour is listed once.
    pub open spec fn inv(&self) -> bool {
        self@.neighbors.no_duplicates()
    }

    /// A drone with the given id and neighbours and no flood seen yet.
    pub fn new(id: NodeId, neighbors: &Vec<NodeId>) -> (r: MyDrone)
        ensures
            r.inv(),
            r@.id == id,
            forall|x: NodeId| r@.neighbors.contains(x) <==> neighbors@.contains(x),
            neighbors@.no_duplicates() ==> r@.neighbors == neighbors@,
            r@.flood_ids == Set::<u64>::empty(),
    {
        MyDrone { id, neighbors: NeighborSet::from_ids(neighbors), flood_ids: HashSet::new() }
    }

    /// Reports the negative acknowledgement of `packet` to the controller.
    pub fn send_nack(&self, packet: &Packet, nack_type: NackType) -> (r: Vec<Action>)
        ensures
            actions_view(r@) == nita_nack_actions(self@, packet@, nack_type),
    {
        let mut r: Vec<Action> = Vec::new();
        push_action(&mut r, Action::Notify(DroneEvent::PacketDropped(nack_of(self.id, packet, nack_type))));
        assert(actions_view(r@) =~= nita_nack_actions(self@, packet@, nack_type));
        r
    }

    /// Checks that `packet` is at this drone and has a next hop; when it is
    /// not, answers it with a negative acknowledgement.
    pub fn verify_packet(&self, packet: &Packet) -> (r: (bool, Vec<Action>))
        ensures
            (r.0, actions_view(r.1@)) == verify_spec(self@, packet@),
    {
        let h = packet.routing_header.hop_index;
        if !(h < packet.routing_header.hops.len() && packet.routing_header.hops[h] == self.id) {
            return (false, self.send_nack(packet, NackType::UnexpectedRecipient(self.id)));
        }
        if packet.routing_header.hops.len() - h <= 1 {
            return (false, self.send_nack(packet, NackType::DestinationIsDrone));
        }
        let r: Vec<Action> = Vec::new();
        assert(actions_view(r@) =~= Seq::<ActionView>::empty());
        (true, r)
    }

    /// Sends `packet` to the first hop of its route, when that hop is a
    /// neighbour.
    pub fn send_packet(&self, packet: Packet) -> (r: Vec<Action>)
        ensures
            actions_view(r@) == nita_send_actions(self@, packet@),
    {
        let mut r: Vec<Action> = Vec::new();
        if packet.routing_header.hops.len() > 0 {
            let next_hop = packet.routing_header.hops[0];
            if self.neighbors.contains(next_hop) {
                push_action(&mut r, Action::Forward { to: next_hop, packet });
            }
        }
        assert(actions_view(r@) =~= nita_send_actions(self@, packet@));
        r
    }

    /// Handles a packet that has passed the route check, with `fresh` the
    /// session ids for the packets it creates.
    pub fn handle_packet_with(&mut self, packet: Packet, dropped: bool, fresh: &Vec<u64>) -> (r: Vec<Action>)
        requires
            old(self).inv(),
            nita_handles_without_panic(packet@, dropped),
            fresh@.len() >= fresh_needed(old(self)@),
        ensures
            final(self).inv(),
            (final(self)@, actions_view(r@)) == nita_handle_spec(old(self)@, packet@, dropped, fresh@),
    {
        let ghost p = packet@;
        let h = packet.routing_header.hop_index;
        match &packet.pack_type {
            PacketType::MsgFragment(_) => {
                let mut r: Vec<Action> = Vec::new();
                if !dropped {
                    assert(h < packet.routing_header.hops.len());
                    let next = packet.routing_header.hops[h + 1];
                    if self.neighbors.contains(next) {
                        push_action(&mut r, Action::Forward { to: next, packet });
                    }
                }
                assert(actions_view(r@) =~= nita_handle_spec(old(self)@, p, dropped, fresh@).1);
                r
            },
            PacketType::FloodRequest(flood_request) => {
                if self.flood_ids.contains(&flood_request.flood_id) {
                    return self.send_nack(&packet, NackType::ErrorInRouting(1));
                }
                self.flood_ids.insert(flood_request.flood_id);
                let mut trace = copy_trace(&flood_request.path_trace);
                trace.push((self.id, NodeType::Drone));
                if self.neighbors.len() == 0 {
                    let ids = trace_node_ids(&trace);
                    let response = Packet {
                        pack_type: PacketType::FloodResponse(FloodResponse {
                            flood_id: flood_request.flood_id,
                            path_trace: trace,
                        }),
                        routing_header: SourceRoutingHeader { hop_index: 0, hops: reverse_hops(&ids) },
                        session_id: fresh[0],
                    };
                    return self.send_packet(response);
                }
                let forwarded = FloodRequest {
                    flood_id: flood_request.flood_id,
                    initiator_id: flood_request.initiator_id,
                    path_trace: trace,
                };
                let ghost payload = PacketTypeView::FloodRequest(forwarded@);
                let ghost s0 = old(self)@;
                let mut r: Vec<Action> = Vec::new();
                let mut i: usize = 0;
                while i < self.neighbors.len()
                    invariant
                        i <= self.neighbors@.len(),
                        self.neighbors@ == s0.neighbors,
                        fresh@.len() >= s0.neighbors.len(),
                        payload == PacketTypeView::FloodRequest(forwarded@),
                        actions_view(r@) =~= Seq::new(i as nat, |j: int| ActionView::Forward {
                            to: s0.neighbors[j],
                            packet: one_hop_view(payload, s0.neighbors[j], fresh@[j]),
                        }),
                    decreases self.neighbors@.len() - i,
                {
                    let neighbor_id = self.neighbors.get(i);
                    let mut hops: Vec<NodeId> = Vec::new();
                    hops.push(neighbor_id);
                    let new_packet = Packet {
                        pack_type: PacketType::FloodRequest(forwarded.clone()),
                        routing_header: SourceRoutingHeader { hop_index: 0, hops },
                        session_id: fresh[i],
                    };
                    assert(new_packet@.header.hops =~= seq![neighbor_id]);
                    push_action(&mut r, Action::Forward { to: neighbor_id, packet: new_packet });
                    i = i + 1;
                }
                r
            },
            PacketType::FloodResponse(flood_response) => {
                let n = flood_response.path_trace.len();
                let mut r: Vec<Action> = Vec::new();
                if n > 0 {
                    let next_hop = flood_response.path_trace[n - 1].0;
                    if self.neighbors.contains(next_hop) {
                        let mut trace = copy_trace(&flood_response.path_trace);
                        trace.pop();
                        let mut hops: Vec<NodeId> = Vec::new();
                        hops.push(next_hop);
                        let new_packet = Packet {
                            pack_type: PacketType::FloodResponse(FloodResponse {
                                flood_id: flood_response.flood_id,
                                path_trace: trace,
                            }),
                            routing_header: SourceRoutingHeader { hop_index: 0, hops },
                            session_id: fresh[0],
                        };
                        assert(new_packet@.header.hops =~= seq![next_hop]);
                        assert(new_packet@.pack_type->FloodResponse_0.path_trace =~= flood_response@.path_trace.drop_last());
                        push_action(&mut r, Action::Forward { to: next_hop, packet: new_packet });
                    }
                }
                assert(actions_view(r@) =~= nita_handle_spec(old(self)@, p, dropped, fresh@).1);
                r
            },
            _ => {
                let r: Vec<Action> = Vec::new();
                assert(actions_view(r@) =~= Seq::<ActionView>::empty());
                r
            },
        }
    }

    /// Handles a packet that has passed the route check, drawing fresh
    /// session ids for the packets it creates. Whatever ids are drawn, the
    /// outcome is that of `nita_handle_spec` for some such ids.
    pub fn handle_packet(&mut self, packet: Packet, dropped: bool) -> (r: Vec<Action>)
        requires
            old(self).inv(),
            nita_handles_without_panic(packet@, dropped),
        ensures
            final(self).inv(),
            exists|fresh: Seq<u64>|
                fresh.len() == fresh_needed(old(self)@) && (final(self)@, actions_view(r@))
                    == nita_handle_spec(old(self)@, packet@, dropped, fresh),
    {
        let n = if self.neighbors.len() == 0 { 1 } else { self.neighbors.len() };
        let mut fresh: Vec<u64> = Vec::new();
        while fresh.len() < n
            invariant
                fresh@.len() <= n,
            decreases n - fresh@.len(),
        {
            fresh.push(random_session_id());
        }
        let r = self.handle_packet_with(packet, dropped, &fresh);
        assert(fresh@.len() == fresh_needed(old(self)@));
        r
    }

    /// Applies a controller command: senders are added and removed; the drop
    /// rate lives with the caller and a crash changes nothing here.
    pub fn handle_command(&mut self, command: DroneCommand)
        requires
            old(self).inv(),
        ensures
            final(self).inv(),
            final(self)@ == nita_command_spec(old(self)@, command),
            command matches DroneCommand::AddSender(n) ==> final(self)@.neighbors.contains(n),
            command matches DroneCommand::RemoveSender(n) ==> !final(self)@.neighbors.contains(n),
            forall|m: NodeId| (command matches DroneCommand::AddSender(n) && m != n) || (command matches DroneCommand::RemoveSender(n) && m != n)
                ==> (final(self)@.neighbors.contains(m) <==> old(self)@.neighbors.contains(m)),
    {
        match command {
            DroneCommand::AddSender(node_id) => self.neighbors.add(node_id),
            DroneCommand::RemoveSender(node_id) => self.neighbors.remove(node_id),
            _ => {},
        }
    }

    /// One step of the main loop on a packet: the route check, then, when it
    /// passes, the handling and the sound of a received packet.
    pub fn step_packet(&mut self, packet: Packet, dropped: bool) -> (r: Vec<Action>)
        requires
            old(self).inv(),
        ensures
            final(self).inv(),
            exists|fresh: Seq<u64>|
                fresh.len() == fresh_needed(old(self)@) && (final(self)@, actions_view(r@))
                    == nita_step_spec(old(self)@, packet@, dropped, fresh),
    {
        let (ok, nack) = self.verify_packet(&packet);
        if ok {
            let ghost s0 = self@;
            let ghost pv = packet@;
            let mut r = self.handle_packet(packet, dropped);
            let ghost r0 = actions_view(r@);
            push_action(&mut r, Action::PlaySound(Sound::Received));
            proof {
                let fresh = choose|fresh: Seq<u64>|
                    fresh.len() == fresh_needed(s0) && (self@, r0) == nita_handle_spec(s0, pv, dropped, fresh);
                assert(fresh.len() == fresh_needed(s0) && (self@, actions_view(r@)) == nita_step_spec(s0, pv, dropped, fresh));
            }
            r
        } else {
            proof {
                let fresh = Seq::new(fresh_needed(self@), |i: int| 0u64);
                assert(fresh.len() == fresh_needed(self@) && (self@, actions_view(nack@)) == nita_step_spec(self@, packet@, dropped, fresh));
            }
            nack
        }
    }

    /// Whether `handle_packet` can take `packet` with this drop draw (see
    /// `nita_handles_without_panic`).
    pub fn can_handle(&self, packet: &Packet, dropped: bool) -> (r: bool)
        ensures
            r == nita_handles_without_panic(packet@, dropped),
    {
        match &packet.pack_type {
            PacketType::MsgFragment(_) => dropped || (packet.routing_header.hop_index < packet.routing_header.hops.len()
                && packet.routing_header.hops.len() - packet.routing_header.hop_index > 1),
            _ => true,
        }
    }
}

} // verus!
