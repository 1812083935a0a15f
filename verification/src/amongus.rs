//! The "among us" drone: forwards fragments, acknowledgements and flood
//! messages along their source routes and answers routing errors with
//! negative acknowledgements.
use vstd::prelude::*;
use vstd::std_specs::cmp::PartialEqSpec;
use vstd::std_specs::hash::obeys_key_model;
use std::collections::HashMap;
use std::hash::Hash;
use crate::packet::{
    NodeId, NodeType, Nack, NackType, Packet, PacketType, PacketView, PacketTypeView,
    FloodRequest, FloodResponse, FloodResponseView, FloodRequestView, HeaderView,
    SourceRoutingHeader, DroneEvent, DroneEventView, trace_ids, trace_node_ids, copy_hops, copy_trace,
};
use crate::action::{Action, ActionView, Sound, actions_view, append_actions, push_action};
use crate::routing::{
    reversed_header, reverse_routing_header, spec_next_hop, nack_of, nack_of_view,
    lemma_reversed_prefix_is_back_header,
};
use crate::command::DroneCommand;
use crate::neighbors::{NeighborSet, seq_add, seq_remove, contains_node};

verus! {

broadcast use vstd::std_specs::hash::group_hash_axioms;

/// Whether `m` maps `key` to a value that `==` finds equal to `value`.
pub open spec fn holds_pair<K, V: PartialEq>(m: Map<K, V>, key: K, value: V) -> bool {
    m.contains_key(key) && m[key].eq_spec(&value)
}

/// Whether `map` maps `key` to a value equal to `value`.
pub fn contains_pair<K: Eq + Hash, V: PartialEq>(map: &HashMap<K, V>, key: &K, value: &V) -> (r: bool)
    ensures
        obeys_key_model::<K>() && <V as PartialEqSpec>::obeys_eq_spec() ==> r == holds_pair(map@, *key, *value),
{
    match map.get(key) {
        Some(v) => v.eq(value),
        None => false,
    }
}

/// The state that the drone's decisions read: its id, the ids of the
/// neighbours it has a channel to, and the floods it has taken part in
/// (flood id to initiator).
pub struct AmongUsDrone {
    id: NodeId,
    neighbors: NeighborSet,
    flood_ids: HashMap<u64, NodeId>,
}

/// Mathematical value of the drone's state.
pub struct AmongUsView {
    pub id: NodeId,
    pub neighbors: Seq<NodeId>,
    pub flood_ids: Map<u64, NodeId>,
}

impl View for AmongUsDrone {
    type V = AmongUsView;

    closed spec fn view(&self) -> AmongUsView {
        AmongUsView { id: self.id, neighbors: self.neighbors@, flood_ids: self.flood_ids@ }
    }
}

impl AmongUsDrone {
    /// Well-formedness: each neighbour is listed once.
    pub open spec fn inv(&self) -> bool {
        self@.neighbors.no_duplicates()
    }

    /// The drone's id.
    pub fn id(&self) -> (r: NodeId)
        ensures
            r == self@.id,
    {
        self.id
    }
}

/// The state after `node` is added to the neighbours.
pub open spec fn add_neighbor_spec(s: AmongUsView, node: NodeId) -> AmongUsView {
    AmongUsView { neighbors: seq_add(s.neighbors, node), ..s }
}

/// The state after `node` is removed from the neighbours.
pub open spec fn remove_neighbor_spec(s: AmongUsView, node: NodeId) -> AmongUsView {
    AmongUsView { neighbors: seq_remove(s.neighbors, node), ..s }
}

// ---------------------------------------------------------------------------
// What the drone does with a packet
// ---------------------------------------------------------------------------

/// Whether the payload is a flood request.
pub open spec fn is_flood_request(p: PacketView) -> bool {
    p.pack_type is FloodRequest
}

/// Whether the payload may be handed to the controller when it cannot be
/// routed (acknowledgements, negative acknowledgements, flood responses).
pub open spec fn is_shortcut_type(p: PacketView) -> bool {
    p.pack_type is Ack || p.pack_type is Nack || p.pack_type is FloodResponse
}

/// Actions of sending `packet` to `hop`: it goes on the channel to `hop` when
/// `hop` is a neighbour, and the controller is told in any case that it was
/// sent.
pub open spec fn send_actions(neighbors: Seq<NodeId>, packet: PacketView, hop: NodeId) -> Seq<ActionView> {
    (if neighbors.contains(hop) {
        seq![ActionView::Forward { to: hop, packet }]
    } else {
        seq![]
    }) + seq![ActionView::Notify(DroneEventView::PacketSent(packet))]
}

/// Actions of sending a negative acknowledgement to the previous hop, when
/// its route has one.
pub open spec fn nack_back_actions(neighbors: Seq<NodeId>, nack: PacketView) -> Seq<ActionView> {
    if nack.header.hops.len() > 1 {
        send_actions(neighbors, nack, nack.header.hops[1])
    } else {
        seq![]
    }
}

/// The controller shortcut for `p`, when its type allows one.
pub open spec fn shortcut_actions(p: PacketView) -> Seq<ActionView> {
    if is_shortcut_type(p) {
        seq![ActionView::Notify(DroneEventView::ControllerShortcut(p))]
    } else {
        seq![]
    }
}

/// `p` with its hop index moved one hop on.
pub open spec fn forwarded_view(p: PacketView) -> PacketView {
    PacketView {
        pack_type: p.pack_type,
        header: HeaderView { hop_index: p.header.hop_index + 1, hops: p.header.hops },
        session_id: p.session_id,
    }
}

/// Whether a node is off the path `visited`.
pub open spec fn off_path(visited: Seq<NodeId>) -> spec_fn(NodeId) -> bool {
    |n: NodeId| !visited.contains(n)
}

/// The neighbours that are not on the path a flood has taken.
pub open spec fn flood_targets(neighbors: Seq<NodeId>, visited: Seq<NodeId>) -> Seq<NodeId> {
    neighbors.filter(off_path(visited))
}

/// One forward of `packet` to each of `targets`, in order.
pub open spec fn forward_all(targets: Seq<NodeId>, packet: PacketView) -> Seq<ActionView> {
    targets.map_values(|n: NodeId| ActionView::Forward { to: n, packet })
}

/// The flood response carrying `trace` along `header`.
pub open spec fn flood_response_view(
    flood_id: u64,
    trace: Seq<(NodeId, NodeType)>,
    header: HeaderView,
    session_id: u64,
) -> PacketView {
    PacketView {
        pack_type: PacketTypeView::FloodResponse(FloodResponseView { flood_id, path_trace: trace }),
        header,
        session_id,
    }
}

/// Whether the drone has already seen the flood `fr` from its initiator.
pub open spec fn seen_flood(s: AmongUsView, fr: FloodRequestView) -> bool {
    s.flood_ids.contains_key(fr.flood_id) && s.flood_ids[fr.flood_id] == fr.initiator_id
}

/// The path trace of `fr` once the drone `s` has added itself.
pub open spec fn extended_trace(s: AmongUsView, fr: FloodRequestView) -> Seq<(NodeId, NodeType)> {
    fr.path_trace.push((s.id, NodeType::Drone))
}

/// Handling of a flood request `fr` carried by `p`, once the route checks
/// have passed. A flood already seen is answered with a flood response
/// carrying the trace as received, routed back over the first `h + 2` ids of
/// that trace reversed (`h` the packet's hop index). A new one is recorded,
/// and either answered (when no neighbour is off its path) with the extended
/// trace, routed back over the whole extended trace reversed, or passed on,
/// unchanged but for the extended trace, to every neighbour off its path. A
/// response goes to the second hop of its route.
pub open spec fn flood_spec(s: AmongUsView, p: PacketView, fr: FloodRequestView) -> (AmongUsView, Seq<ActionView>) {
    if seen_flood(s, fr) {
        let header = reversed_header(trace_ids(fr.path_trace), p.header.hop_index + 2int);
        let resp = flood_response_view(fr.flood_id, fr.path_trace, header, p.session_id);
        (s, send_actions(s.neighbors, resp, resp.header.hops[1]))
    } else {
        let s2 = AmongUsView { flood_ids: s.flood_ids.insert(fr.flood_id, fr.initiator_id), ..s };
        let trace = extended_trace(s, fr);
        let targets = flood_targets(s.neighbors, trace_ids(trace));
        if targets.len() == 0 {
            let header = HeaderView { hop_index: 1, hops: trace_ids(trace).reverse() };
            let resp = flood_response_view(fr.flood_id, trace, header, p.session_id);
            (s2, send_actions(s.neighbors, resp, resp.header.hops[1]))
        } else {
            let fwd = PacketView {
                pack_type: PacketTypeView::FloodRequest(
                    FloodRequestView { flood_id: fr.flood_id, initiator_id: fr.initiator_id, path_trace: trace },
                ),
                header: p.header,
                session_id: p.session_id,
            };
            (s2, forward_all(targets, fwd))
        }
    }
}

/// The new state and the actions of the drone `s` on receiving `p`;
/// `dropped` is the outcome of the drop draw for a fragment.
pub open spec fn handle_packet_spec(s: AmongUsView, p: PacketView, dropped: bool) -> (AmongUsView, Seq<ActionView>) {
    let hops = p.header.hops;
    let h = p.header.hop_index as int;
    let sid = p.session_id;
    let heard = seq![ActionView::PlaySound(Sound::Received)];
    if hops[h] != s.id && !is_flood_request(p) {
        let nack = nack_of_view(s.id, p, NackType::UnexpectedRecipient(s.id));
        (s, heard + nack_back_actions(s.neighbors, nack) + shortcut_actions(p))
    } else if h + 1 == hops.len() && !is_flood_request(p) {
        let nack = nack_of_view(s.id, p, NackType::DestinationIsDrone);
        (s, heard + send_actions(s.neighbors, nack, nack.header.hops[1]))
    } else {
        let next = hops[h + 1];
        if !s.neighbors.contains(next) && !is_flood_request(p) {
            let nack = nack_of_view(s.id, p, NackType::ErrorInRouting(next));
            (s, heard + nack_back_actions(s.neighbors, nack) + shortcut_actions(p))
        } else {
            match p.pack_type {
                PacketTypeView::MsgFragment(_) => {
                    if !dropped {
                        (s, heard + seq![ActionView::PlaySound(Sound::Sent)] + send_actions(s.neighbors, forwarded_view(p), next))
                    } else {
                        let nack = nack_of_view(s.id, p, NackType::Dropped);
                        (s, heard + nack_back_actions(s.neighbors, nack) + seq![
                            ActionView::PlaySound(Sound::Dropped),
                            ActionView::Notify(DroneEventView::PacketDropped(p)),
                        ])
                    }
                },
                PacketTypeView::FloodRequest(fr) => {
                    let r = flood_spec(s, p, fr);
                    (r.0, heard + r.1)
                },
                _ => (s, heard + send_actions(s.neighbors, forwarded_view(p), next)),
            }
        }
    }
}

/// The packets that the drone handles without failing on an index: the
/// current hop is on the route; a packet that ends at the drone came over at
/// least one hop; a packet that is passed on has a next hop; and a flood is
/// answered only when its trace is not empty, so that the response's route
/// has a hop after the drone.
pub open spec fn handles_without_panic(s: AmongUsView, p: PacketView) -> bool {
    let hops = p.header.hops;
    let h = p.header.hop_index as int;
    &&& h < hops.len()
    &&& if hops[h] != s.id && !is_flood_request(p) {
        true
    } else if h + 1 == hops.len() && !is_flood_request(p) {
        h >= 1
    } else if h + 1 >= hops.len() {
        false
    } else {
        match p.pack_type {
            PacketTypeView::FloodRequest(fr) => {
                if seen_flood(s, fr) {
                    h + 2 <= fr.path_trace.len()
                } else if flood_targets(s.neighbors, trace_ids(extended_trace(s, fr))).len() == 0 {
                    fr.path_trace.len() >= 1
                } else {
                    true
                }
            },
            _ => true,
        }
    }
}

/// The state after a controller command: senders are added and removed;
/// the drop rate lives with the caller and a crash is handled by the loop.
pub open spec fn command_spec(s: AmongUsView, command: DroneCommand) -> AmongUsView {
    match command {
        DroneCommand::RemoveSender(n) => remove_neighbor_spec(s, n),
        DroneCommand::AddSender(n) => add_neighbor_spec(s, n),
        _ => s,
    }
}

/// One step of the main loop on a command: new state, actions, and whether
/// the loop stops.
pub open spec fn step_command_spec(s: AmongUsView, command: DroneCommand) -> (AmongUsView, Seq<ActionView>, bool) {
    match command {
        DroneCommand::Crash => (
            AmongUsView { neighbors: Seq::empty(), ..s },
            seq![ActionView::PlaySound(Sound::Crash)],
            true,
        ),
        _ => (command_spec(s, command), seq![], false),
    }
}

/// The packets that a crashing drone handles without failing on an index:
/// a fragment's current hop is on its route.
pub open spec fn crashing_without_panic(p: PacketView) -> bool {
    p.pack_type is MsgFragment ==> p.header.hop_index < p.header.hops.len()
}

/// The actions of a crashing drone `s` on a packet `p`.
pub open spec fn crashing_spec(s: AmongUsView, p: PacketView) -> Seq<ActionView> {
    match p.pack_type {
        PacketTypeView::FloodRequest(_) => seq![],
        PacketTypeView::MsgFragment(_) => nack_back_actions(
            s.neighbors,
            nack_of_view(s.id, p, NackType::ErrorInRouting(s.id)),
        ),
        _ => match spec_next_hop(p.header) {
            Some(n) => send_actions(s.neighbors, forwarded_view(p), n),
            None => seq![],
        },
    }
}

impl AmongUsDrone {
    /// A negative acknowledgement of fragment `fragment_index` that travels
    /// back over the first `hop_idx` hops of `hops`, from the last of them to
    /// the first, with the hop index at the second of them.
    pub fn create_nack_packet(
        &self,
        hops: &Vec<NodeId>,
        hop_idx: usize,
        nack_type: NackType,
        session_id: u64,
        fragment_index: u64,
    ) -> (r: Packet)
        requires
            hop_idx <= hops.len(),
        ensures
            r@ == (PacketView {
                pack_type: PacketTypeView::Nack(Nack { fragment_index, nack_type }),
                header: reversed_header(hops@, hop_idx as int),
                session_id,
            }),
    {
        let rev_routing_header = reverse_routing_header(hops, hop_idx);
        Packet::new_nack(rev_routing_header, session_id, Nack { fragment_index, nack_type })
    }

    /// Sends `packet` to `hop` and reports it to the controller.
    pub fn send_packet(&self, packet: Packet, hop: NodeId) -> (r: Vec<Action>)
        ensures
            actions_view(r@) == send_actions(self@.neighbors, packet@, hop),
    {
        let mut r: Vec<Action> = Vec::new();
        if self.neighbors.contains(hop) {
            push_action(&mut r, Action::Forward { to: hop, packet: packet.clone() });
        }
        push_action(&mut r, Action::Notify(DroneEvent::PacketSent(packet)));
        assert(actions_view(r@) =~= send_actions(self@.neighbors, packet@, hop));
        r
    }

    /// Sends a negative acknowledgement to the previous hop, if its route has one.
    fn send_nack_back(&self, nack: Packet) -> (r: Vec<Action>)
        ensures
            actions_view(r@) == nack_back_actions(self@.neighbors, nack@),
    {
        if nack.routing_header.hops.len() > 1 {
            let prev = nack.routing_header.hops[1];
            self.send_packet(nack, prev)
        } else {
            let r: Vec<Action> = Vec::new();
            assert(actions_view(r@) =~= Seq::<ActionView>::empty());
            r
        }
    }

    /// The neighbours off the path `visited`, in the order they were added.
    fn flood_targets_of(&self, visited: &Vec<NodeId>) -> (r: Vec<NodeId>)
        ensures
            r@ == flood_targets(self@.neighbors, visited@),
    {
        let mut r: Vec<NodeId> = Vec::new();
        let mut i: usize = 0;
        while i < self.neighbors.len()
            invariant
                i <= self.neighbors@.len(),
                r@ == self.neighbors@.take(i as int).filter(off_path(visited@)),
            decreases self.neighbors@.len() - i,
        {
            let n = self.neighbors.get(i);
            let on_path = contains_node(visited, n);
            proof {
                reveal_with_fuel(Seq::filter, 1);
                assert(self.neighbors@.take(i + 1).drop_last() =~= self.neighbors@.take(i as int));
            }
            if !on_path {
                r.push(n);
            }
            i = i + 1;
        }
        assert(self.neighbors@.take(i as int) =~= self.neighbors@);
        r
    }

    /// Handles a flood request whose route checks have passed.
    fn handle_flood_request(&mut self, fr: FloodRequest, header: SourceRoutingHeader, session_id: u64) -> (r: Vec<Action>)
        requires
            old(self).inv(),
            header.hop_index + 1 < header.hops.len(),
            seen_flood(old(self)@, fr@) ==> header.hop_index + 2 <= fr.path_trace.len(),
            !seen_flood(old(self)@, fr@) && flood_targets(
                old(self)@.neighbors,
                trace_ids(extended_trace(old(self)@, fr@)),
            ).len() == 0 ==> fr.path_trace.len() >= 1,
        ensures
            final(self).inv(),
            (final(self)@, actions_view(r@)) == flood_spec(
                old(self)@,
                PacketView { pack_type: PacketTypeView::FloodRequest(fr@), header: header@, session_id },
                fr@,
            ),
    {
        let ghost s0 = self@;
        let ghost p = PacketView { pack_type: PacketTypeView::FloodRequest(fr@), header: header@, session_id };
        if contains_pair(&self.flood_ids, &fr.flood_id, &fr.initiator_id) {
            let ids = trace_node_ids(&fr.path_trace);
            let routing_header = reverse_routing_header(&ids, header.hop_index + 2);
            let next_hop = routing_header.hops[1];
            let response = Packet::new_flood_response(
                routing_header,
                session_id,
                FloodResponse { flood_id: fr.flood_id, path_trace: copy_trace(&fr.path_trace) },
            );
            return self.send_packet(response, next_hop);
        }
        self.flood_ids.insert(fr.flood_id, fr.initiator_id);
        let mut fr = fr;
        fr.path_trace.push((self.id, NodeType::Drone));
        let ids = trace_node_ids(&fr.path_trace);
        let targets = self.flood_targets_of(&ids);
        if targets.len() == 0 {
            let routing_header = reverse_routing_header(&ids, ids.len());
            assert(ids@.take(ids@.len() as int) =~= ids@);
            let next_hop = routing_header.hops[1];
            let response = Packet::new_flood_response(
                routing_header,
                session_id,
                FloodResponse { flood_id: fr.flood_id, path_trace: copy_trace(&fr.path_trace) },
            );
            return self.send_packet(response, next_hop);
        }
        let ghost fwd = PacketView {
            pack_type: PacketTypeView::FloodRequest(fr@),
            header: header@,
            session_id,
        };
        let mut r: Vec<Action> = Vec::new();
        let mut j: usize = 0;
        while j < targets.len()
            invariant
                j <= targets.len(),
                actions_view(r@) == forward_all(targets@.take(j as int), fwd),
                fwd == (PacketView { pack_type: PacketTypeView::FloodRequest(fr@), header: header@, session_id }),
            decreases targets.len() - j,
        {
            let new_packet = Packet {
                pack_type: PacketType::FloodRequest(fr.clone()),
                routing_header: header.clone(),
                session_id,
            };
            push_action(&mut r, Action::Forward { to: targets[j], packet: new_packet });
            j = j + 1;
            assert(forward_all(targets@.take(j as int), fwd) =~= forward_all(targets@.take(j - 1), fwd).push(
                ActionView::Forward { to: targets@[j - 1], packet: fwd },
            ));
        }
        assert(targets@.take(j as int) =~= targets@);
        r
    }

    /// Handles a packet received from a neighbour. `dropped` is the outcome
    /// of the drop draw, used when the packet is a fragment to pass on.
    pub fn handle_packet(&mut self, packet: Packet, dropped: bool) -> (r: Vec<Action>)
        requires
            old(self).inv(),
            handles_without_panic(old(self)@, packet@),
        ensures
            final(self).inv(),
            (final(self)@, actions_view(r@)) == handle_packet_spec(old(self)@, packet@, dropped),
    {
        let ghost p = packet@;
        let ghost s0 = self@;
        let mut r: Vec<Action> = Vec::new();
        push_action(&mut r, Action::PlaySound(Sound::Received));
        let is_flood_request = match &packet.pack_type {
            PacketType::FloodRequest(_) => true,
            _ => false,
        };
        let send_sc = match &packet.pack_type {
            PacketType::Ack(_) | PacketType::Nack(_) | PacketType::FloodResponse(_) => true,
            _ => false,
        };
        let start_hop_index = packet.routing_header.hop_index;
        assert(start_hop_index < packet.routing_header.hops.len());
        let fragment_index = match &packet.pack_type {
            PacketType::MsgFragment(f) => f.fragment_index,
            _ => 0,
        };
        if packet.routing_header.hops[start_hop_index] != self.id && !is_flood_request {
            // The route back starts at this drone, which sends the nack.
            let nack_packet = nack_of(self.id, &packet, NackType::UnexpectedRecipient(self.id));
            append_actions(&mut r, self.send_nack_back(nack_packet));
            if send_sc {
                push_action(&mut r, Action::Notify(DroneEvent::ControllerShortcut(packet)));
            }
            return r;
        }
        let new_hop_index = start_hop_index + 1;
        proof {
            // From here on the drone stands at the current hop, so the
            // retraced prefix of the route is its route back.
            if !is_flood_request {
                lemma_reversed_prefix_is_back_header(p.header.hops, p.header.hop_index as int, self.id);
            }
        }
        if new_hop_index == packet.routing_header.hops.len() && !is_flood_request {
            let nack_packet = self.create_nack_packet(
                &packet.routing_header.hops,
                new_hop_index,
                NackType::DestinationIsDrone,
                packet.session_id,
                fragment_index,
            );
            let next_nack_hop = nack_packet.routing_header.hops[1];
            append_actions(&mut r, self.send_packet(nack_packet, next_nack_hop));
            return r;
        }
        let next_hop = packet.routing_header.hops[new_hop_index];
        if !self.neighbors.contains(next_hop) && !is_flood_request {
            let nack_packet = self.create_nack_packet(
                &packet.routing_header.hops,
                new_hop_index,
                NackType::ErrorInRouting(next_hop),
                packet.session_id,
                fragment_index,
            );
            append_actions(&mut r, self.send_nack_back(nack_packet));
            if send_sc {
                push_action(&mut r, Action::Notify(DroneEvent::ControllerShortcut(packet)));
            }
            return r;
        }
        match &packet.pack_type {
            PacketType::MsgFragment(fragment) => {
                if !dropped {
                    let new_packet = Packet {
                        routing_header: SourceRoutingHeader {
                            hops: copy_hops(&packet.routing_header.hops),
                            hop_index: new_hop_index,
                        },
                        session_id: packet.session_id,
                        pack_type: PacketType::MsgFragment(*fragment),
                    };
                    push_action(&mut r, Action::PlaySound(Sound::Sent));
                    append_actions(&mut r, self.send_packet(new_packet, next_hop));
                } else {
                    let nack_packet = self.create_nack_packet(
                        &packet.routing_header.hops,
                        new_hop_index,
                        NackType::Dropped,
                        packet.session_id,
                fragment_index,
                    );
                    append_actions(&mut r, self.send_nack_back(nack_packet));
                    push_action(&mut r, Action::PlaySound(Sound::Dropped));
                    push_action(&mut r, Action::Notify(DroneEvent::PacketDropped(packet)));
                }
            },
            PacketType::FloodRequest(flood_request) => {
                let fr = flood_request.clone();
                let header = packet.routing_header.clone();
                let more = self.handle_flood_request(fr, header, packet.session_id);
                append_actions(&mut r, more);
            },
            _ => {
                let new_packet = Packet {
                    routing_header: SourceRoutingHeader {
                        hops: copy_hops(&packet.routing_header.hops),
                        hop_index: new_hop_index,
                    },
                    session_id: packet.session_id,
                    pack_type: packet.pack_type.clone(),
                };
                append_actions(&mut r, self.send_packet(new_packet, next_hop));
            },
        }
        r
    }

    /// A drone with the given id and neighbours and no flood seen yet.
    pub fn new(id: NodeId, neighbors: &Vec<NodeId>) -> (r: AmongUsDrone)
        ensures
            r.inv(),
            r@.id == id,
            forall|x: NodeId| r@.neighbors.contains(x) <==> neighbors@.contains(x),
            neighbors@.no_duplicates() ==> r@.neighbors == neighbors@,
            r@.flood_ids == Map::<u64, NodeId>::empty(),
    {
        AmongUsDrone { id, neighbors: NeighborSet::from_ids(neighbors), flood_ids: HashMap::new() }
    }

    /// Applies a controller command to the neighbour set.
    pub fn handle_command(&mut self, command: DroneCommand)
        requires
            old(self).inv(),
        ensures
            final(self).inv(),
            final(self)@ == command_spec(old(self)@, command),
            command matches DroneCommand::AddSender(n) ==> final(self)@.neighbors.contains(n),
            command matches DroneCommand::RemoveSender(n) ==> !final(self)@.neighbors.contains(n),
            forall|m: NodeId| (command matches DroneCommand::AddSender(n) && m != n) || (command matches DroneCommand::RemoveSender(n) && m != n)
                ==> (final(self)@.neighbors.contains(m) <==> old(self)@.neighbors.contains(m)),
    {
        match command {
            DroneCommand::RemoveSender(node_id) => self.neighbors.remove(node_id),
            DroneCommand::AddSender(node_id) => self.neighbors.add(node_id),
            DroneCommand::SetPacketDropRate => {},
            _ => {},
        }
    }

    /// Drops every neighbour, so that nothing more goes out on a channel.
    pub fn enter_crashing_behavior(&mut self)
        requires
            old(self).inv(),
        ensures
            final(self).inv(),
            final(self)@ == (AmongUsView { neighbors: Seq::empty(), ..old(self)@ }),
    {
        self.neighbors.clear();
    }

    /// One step of the main loop on a controller command: a crash plays the
    /// crash sound, drops every neighbour and stops the loop (the second
    /// component is `true`); any other command is applied.
    pub fn step_command(&mut self, command: DroneCommand) -> (r: (Vec<Action>, bool))
        requires
            old(self).inv(),
        ensures
            final(self).inv(),
            (final(self)@, actions_view(r.0@), r.1) == step_command_spec(old(self)@, command),
    {
        match command {
            DroneCommand::Crash => {
                let mut r: Vec<Action> = Vec::new();
                push_action(&mut r, Action::PlaySound(Sound::Crash));
                self.enter_crashing_behavior();
                (r, true)
            },
            _ => {
                self.handle_command(command);
                let r: Vec<Action> = Vec::new();
                assert(actions_view(r@) =~= Seq::<ActionView>::empty());
                (r, false)
            },
        }
    }

    /// Handles a packet that arrives while the drone is crashing: flood
    /// requests are dropped, acknowledgements, negative acknowledgements and
    /// flood responses are passed to the next hop when the route has one, and
    /// fragments are answered with an `ErrorInRouting` negative
    /// acknowledgement naming this drone.
    pub fn process_crashing_message(&self, packet: Packet) -> (r: Vec<Action>)
        requires
            crashing_without_panic(packet@),
        ensures
            actions_view(r@) == crashing_spec(self@, packet@),
    {
        match &packet.pack_type {
            PacketType::FloodRequest(_) => {
                let r: Vec<Action> = Vec::new();
                assert(actions_view(r@) =~= Seq::<ActionView>::empty());
                r
            },
            PacketType::MsgFragment(f) => {
                let fragment_index = f.fragment_index;
                assert(packet.routing_header.hop_index < packet.routing_header.hops.len());
                let nack_packet = nack_of(self.id, &packet, NackType::ErrorInRouting(self.id));
                self.send_nack_back(nack_packet)
            },
            _ => {
                match packet.routing_header.next_hop() {
                    Some(next_hop) => {
                        assert(packet.routing_header.hop_index + 1 < packet.routing_header.hops.len());
                        let new_packet = Packet {
                            routing_header: SourceRoutingHeader {
                                hops: copy_hops(&packet.routing_header.hops),
                                hop_index: packet.routing_header.hop_index + 1,
                            },
                            session_id: packet.session_id,
                            pack_type: packet.pack_type.clone(),
                        };
                        self.send_packet(new_packet, next_hop)
                    },
                    None => {
                        let r: Vec<Action> = Vec::new();
                        assert(actions_view(r@) =~= Seq::<ActionView>::empty());
                        r
                    },
                }
            },
        }
    }

    /// Whether `handle_packet` can take `packet` (see `handles_without_panic`).
    pub fn can_handle(&self, packet: &Packet) -> (r: bool)
        requires
            self.inv(),
        ensures
            r == handles_without_panic(self@, packet@),
    {
        let h = packet.routing_header.hop_index;
        let n = packet.routing_header.hops.len();
        if h >= n {
            return false;
        }
        let is_flood_request = match &packet.pack_type {
            PacketType::FloodRequest(_) => true,
            _ => false,
        };
        if packet.routing_header.hops[h] != self.id && !is_flood_request {
            return true;
        }
        if h + 1 == n && !is_flood_request {
            return h >= 1;
        }
        if h + 1 >= n {
            return false;
        }
        match &packet.pack_type {
            PacketType::FloodRequest(fr) => {
                if contains_pair(&self.flood_ids, &fr.flood_id, &fr.initiator_id) {
                    h + 2 <= fr.path_trace.len()
                } else {
                    let mut trace = copy_trace(&fr.path_trace);
                    trace.push((self.id, NodeType::Drone));
                    let ids = trace_node_ids(&trace);
                    let targets = self.flood_targets_of(&ids);
                    assert(trace@ == extended_trace(self@, fr@));
                    if targets.len() == 0 {
                        fr.path_trace.len() >= 1
                    } else {
                        true
                    }
                }
            },
            _ => true,
        }
    }

    /// Whether `process_crashing_message` can take `packet` (see
    /// `crashing_without_panic`).
    pub fn can_process_while_crashing(&self, packet: &Packet) -> (r: bool)
        ensures
            r == crashing_without_panic(packet@),
    {
        match &packet.pack_type {
            PacketType::MsgFragment(_) => packet.routing_header.hop_index < packet.routing_header.hops.len(),
            _ => true,
        }
    }
}

} // verus!
