//! Properties of the drones that span several calls or every input.
use vstd::prelude::*;
use crate::packet::{NodeId, NackType, PacketView, PacketTypeView, FloodRequestView, DroneEventView, trace_ids};
use crate::action::{ActionView, Sound};
use crate::command::DroneCommand;
use crate::routing::{reversed_header, nack_of_view};
use crate::neighbors::{seq_add, seq_remove};
use crate::pie::{PieView, pie_handle_spec, pie_handles_without_panic, pie_flood_actions, not_previous};
use crate::nita::{NitaView, nita_handle_spec, nita_step_spec, nita_command_spec, nita_nack_actions, verify_spec, fresh_needed};
use crate::nita_basic::{BasicView, basic_handle_spec, basic_command_spec};
use crate::amongus::{
    AmongUsView, handle_packet_spec, handles_without_panic, send_actions, nack_back_actions,
    forward_all, flood_targets, off_path, flood_spec, seen_flood, command_spec, step_command_spec,
    crashing_spec, shortcut_actions, forwarded_view, extended_trace,
    flood_response_view, holds_pair,
};

verus! {

/// Whether every forward among `acts` goes to one of `neighbors`.
pub open spec fn forwards_within(acts: Seq<ActionView>, neighbors: Seq<NodeId>) -> bool {
    forall|i: int| 0 <= i < acts.len() ==> (#[trigger] acts[i] matches ActionView::Forward { to, .. } ==> neighbors.contains(to))
}

/// Whether some action among `acts` puts a flood request on a channel.
pub open spec fn forwards_flood_request(acts: Seq<ActionView>) -> bool {
    exists|i: int| 0 <= i < acts.len() && (#[trigger] acts[i] matches ActionView::Forward { packet, .. } && packet.pack_type is FloodRequest)
}

proof fn lemma_forwards_within_add(a: Seq<ActionView>, b: Seq<ActionView>, neighbors: Seq<NodeId>)
    requires
        forwards_within(a, neighbors),
        forwards_within(b, neighbors),
    ensures
        forwards_within(a + b, neighbors),
{
    assert forall|i: int| 0 <= i < (a + b).len() implies (#[trigger] (a + b)[i] matches ActionView::Forward { to, .. } ==> neighbors.contains(to)) by {
        if i < a.len() {
            assert((a + b)[i] == a[i]);
        } else {
            assert((a + b)[i] == b[i - a.len()]);
        }
    }
}

proof fn lemma_send_within(neighbors: Seq<NodeId>, packet: PacketView, hop: NodeId)
    ensures
        forwards_within(send_actions(neighbors, packet, hop), neighbors),
{
}

proof fn lemma_nack_back_within(neighbors: Seq<NodeId>, nack: PacketView)
    ensures
        forwards_within(nack_back_actions(neighbors, nack), neighbors),
{
}

proof fn lemma_shortcut_within(p: PacketView, neighbors: Seq<NodeId>)
    ensures
        forwards_within(shortcut_actions(p), neighbors),
{
}

proof fn lemma_forward_all_within(neighbors: Seq<NodeId>, visited: Seq<NodeId>, packet: PacketView)
    ensures
        forwards_within(forward_all(flood_targets(neighbors, visited), packet), neighbors),
{
    let t = flood_targets(neighbors, visited);
    let acts = forward_all(t, packet);
    assert forall|i: int| 0 <= i < acts.len() implies (#[trigger] acts[i] matches ActionView::Forward { to, .. } ==> neighbors.contains(to)) by {
        assert(acts[i] == ActionView::Forward { to: t[i], packet });
        assert(t.contains(t[i]));
        neighbors.lemma_filter_contains_rev(off_path(visited), t[i]);
    }
}

/// A drone puts packets only on the channels of its own neighbours: every
/// forward that handling a packet produces goes to a current neighbour.
pub proof fn law_forwards_only_to_neighbors(s: AmongUsView, p: PacketView, dropped: bool)
    requires
        handles_without_panic(s, p),
    ensures
        forwards_within(handle_packet_spec(s, p, dropped).1, s.neighbors),
{
    let heard = seq![ActionView::PlaySound(Sound::Received)];
    assert(forwards_within(heard, s.neighbors));
    let hops = p.header.hops;
    let h = p.header.hop_index as int;
    lemma_shortcut_within(p, s.neighbors);
    let extra = seq![
        ActionView::PlaySound(Sound::Dropped),
        ActionView::Notify(DroneEventView::PacketDropped(p)),
    ];
    assert(forwards_within(extra, s.neighbors));
    let sent = seq![ActionView::PlaySound(Sound::Sent)];
    assert(forwards_within(sent, s.neighbors));
    let nack1 = nack_of_view(s.id, p, NackType::UnexpectedRecipient(s.id));
    lemma_nack_back_within(s.neighbors, nack1);
    lemma_forwards_within_add(heard, nack_back_actions(s.neighbors, nack1), s.neighbors);
    lemma_forwards_within_add(heard + nack_back_actions(s.neighbors, nack1), shortcut_actions(p), s.neighbors);
    if h + 1 < hops.len() {
        let next = hops[h + 1];
        let nack3 = nack_of_view(s.id, p, NackType::ErrorInRouting(next));
        lemma_nack_back_within(s.neighbors, nack3);
        lemma_forwards_within_add(heard, nack_back_actions(s.neighbors, nack3), s.neighbors);
        lemma_forwards_within_add(heard + nack_back_actions(s.neighbors, nack3), shortcut_actions(p), s.neighbors);
        let nack4 = nack_of_view(s.id, p, NackType::Dropped);
        lemma_nack_back_within(s.neighbors, nack4);
        lemma_forwards_within_add(heard, nack_back_actions(s.neighbors, nack4), s.neighbors);
        lemma_forwards_within_add(heard + nack_back_actions(s.neighbors, nack4), extra, s.neighbors);
        let fw = forwarded_view(p);
        lemma_send_within(s.neighbors, fw, next);
        lemma_forwards_within_add(heard, sent, s.neighbors);
        lemma_forwards_within_add(heard + sent, send_actions(s.neighbors, fw, next), s.neighbors);
        lemma_forwards_within_add(heard, send_actions(s.neighbors, fw, next), s.neighbors);
        match p.pack_type {
            PacketTypeView::FloodRequest(fr) => {
                let r = flood_spec(s, p, fr);
                assert(forwards_within(r.1, s.neighbors)) by {
                    let trace = extended_trace(s, fr);
                    lemma_forward_all_within(s.neighbors, trace_ids(trace), PacketView {
                        pack_type: PacketTypeView::FloodRequest(
                            FloodRequestView { flood_id: fr.flood_id, initiator_id: fr.initiator_id, path_trace: trace },
                        ),
                        header: p.header,
                        session_id: p.session_id,
                    });
                }
                lemma_forwards_within_add(heard, r.1, s.neighbors);
            },
            _ => {},
        }
    } else if h + 1 == hops.len() {
        let nack2 = nack_of_view(s.id, p, NackType::DestinationIsDrone);
        lemma_send_within(s.neighbors, nack2, nack2.header.hops[1]);
        lemma_forwards_within_add(heard, send_actions(s.neighbors, nack2, nack2.header.hops[1]), s.neighbors);
    }
}


/// Handling a packet never changes the drone's id or neighbours, and the
/// floods it remembers are only ever added to.
pub proof fn law_packets_keep_topology(s: AmongUsView, p: PacketView, dropped: bool)
    ensures
        ({
            let s1 = handle_packet_spec(s, p, dropped).0;
            &&& s1.id == s.id
            &&& s1.neighbors == s.neighbors
            &&& forall|k: u64| s.flood_ids.contains_key(k) ==> #[trigger] s1.flood_ids.contains_key(k)
        }),
{
}

/// Handling a flood request makes the drone remember the flood (its id and
/// initiator), and a request of that flood from that initiator, when it is
/// remembered, puts no flood request on any channel: it is answered.
pub proof fn law_flood_forwarded_once(s: AmongUsView, p: PacketView, q: PacketView, d1: bool, d2: bool)
    requires
        p.pack_type is FloodRequest,
        q.pack_type is FloodRequest,
        q.pack_type->FloodRequest_0.flood_id == p.pack_type->FloodRequest_0.flood_id,
        q.pack_type->FloodRequest_0.initiator_id == p.pack_type->FloodRequest_0.initiator_id,
    ensures
        ({
            let s1 = handle_packet_spec(s, p, d1).0;
            &&& p.pack_type matches PacketTypeView::FloodRequest(fr) && seen_flood(s1, fr)
            &&& !forwards_flood_request(handle_packet_spec(s1, q, d2).1)
        }),
{
    let fr = p.pack_type->FloodRequest_0;
    let s1 = handle_packet_spec(s, p, d1).0;
    assert(seen_flood(s1, fr));
    lemma_remembered_flood_is_answered(s1, q, d2);
}

/// A request of a remembered flood (same id and initiator) is answered and
/// never passed on.
proof fn lemma_remembered_flood_is_answered(s: AmongUsView, q: PacketView, d: bool)
    requires
        q.pack_type matches PacketTypeView::FloodRequest(fr) && seen_flood(s, fr),
    ensures
        !forwards_flood_request(handle_packet_spec(s, q, d).1),
{
    let fr = q.pack_type->FloodRequest_0;
    let acts = handle_packet_spec(s, q, d).1;
    if forwards_flood_request(acts) {
        let i = choose|i: int| 0 <= i < acts.len() && (#[trigger] acts[i] matches ActionView::Forward { packet, .. } && packet.pack_type is FloodRequest);
        let header = reversed_header(trace_ids(fr.path_trace), q.header.hop_index + 2int);
        let resp = flood_response_view(fr.flood_id, fr.path_trace, header, q.session_id);
        let tail = send_actions(s.neighbors, resp, resp.header.hops[1]);
        assert(acts == seq![ActionView::PlaySound(Sound::Received)] + tail);
        assert(acts[i] == tail[i - 1]);
    }
}

/// An input to the main loop of the `amongus` drone: a packet with the
/// outcome of its drop draw, or a controller command.
pub enum DroneInput {
    Packet(PacketView, bool),
    Command(DroneCommand),
}

/// The state of the `amongus` drone after it has taken `inputs` in order.
pub open spec fn amongus_after(s: AmongUsView, inputs: Seq<DroneInput>) -> AmongUsView
    decreases inputs.len(),
{
    if inputs.len() == 0 {
        s
    } else {
        let s1 = amongus_after(s, inputs.drop_last());
        match inputs.last() {
            DroneInput::Packet(p, d) => handle_packet_spec(s1, p, d).0,
            DroneInput::Command(c) => step_command_spec(s1, c).0,
        }
    }
}

/// Whether `input` is a request of the flood `f` from an initiator other
/// than `a` (the one kind of input that makes the drone forget that `a`
/// started `f`: it records the new initiator in its place).
pub open spec fn rival_flood(input: DroneInput, f: u64, a: NodeId) -> bool {
    input matches DroneInput::Packet(p, _) && p.pack_type matches PacketTypeView::FloodRequest(fr)
        && fr.flood_id == f && fr.initiator_id != a
}

/// A flood is relayed at most once, across any later calls: once the drone
/// remembers that `a` started the flood `f`, it keeps remembering it through
/// any sequence of packets and commands in which no request of `f` from
/// another initiator arrives, and a request of `f` from `a` after them is
/// answered and not passed on.
pub proof fn law_flood_remembered(s: AmongUsView, f: u64, a: NodeId, inputs: Seq<DroneInput>, q: PacketView, d: bool)
    requires
        s.flood_ids.contains_key(f),
        s.flood_ids[f] == a,
        forall|i: int| 0 <= i < inputs.len() ==> !rival_flood(#[trigger] inputs[i], f, a),
        q.pack_type matches PacketTypeView::FloodRequest(fr) && fr.flood_id == f && fr.initiator_id == a,
    ensures
        amongus_after(s, inputs).flood_ids.contains_key(f),
        amongus_after(s, inputs).flood_ids[f] == a,
        !forwards_flood_request(handle_packet_spec(amongus_after(s, inputs), q, d).1),
    decreases inputs.len(),
{
    if inputs.len() > 0 {
        let rest = inputs.drop_last();
        assert forall|i: int| 0 <= i < rest.len() implies !rival_flood(#[trigger] rest[i], f, a) by {
            assert(rest[i] == inputs[i]);
        }
        law_flood_remembered(s, f, a, rest, q, d);
        assert(!rival_flood(inputs[inputs.len() - 1], f, a));
    }
    lemma_remembered_flood_is_answered(amongus_after(s, inputs), q, d);
}

/// Adding a neighbour that is not one yet and then removing it gives the
/// neighbours back as they were (every drone's `AddSender` and
/// `RemoveSender` commands act on its neighbours this way).
pub proof fn law_add_then_remove_neighbor(s: Seq<NodeId>, n: NodeId)
    requires
        s.no_duplicates(),
        !s.contains(n),
    ensures
        seq_remove(seq_add(s, n), n) == s,
{
    let s1 = seq_add(s, n);
    assert(s1 == s.push(n));
    assert(s1[s.len() as int] == n);
    let k = s1.index_of(n);
    assert(s1.contains(n));
    assert(0 <= k < s1.len() && s1[k] == n);
    if k < s.len() {
        assert(s[k] == n);
        assert(s.contains(n));
    }
    assert(s1.remove(k) =~= s);
}

/// After adding `n` it is a neighbour; after removing it, it is not; other
/// nodes keep their standing either way.
pub proof fn law_neighbor_membership(s: Seq<NodeId>, n: NodeId, m: NodeId)
    requires
        s.no_duplicates(),
    ensures
        seq_add(s, n).contains(n),
        !seq_remove(s, n).contains(n),
        m != n ==> seq_add(s, n).contains(m) == s.contains(m),
        m != n ==> seq_remove(s, n).contains(m) == s.contains(m),
{
    broadcast use vstd::seq_lib::group_seq_properties;
    if !s.contains(n) {
        assert(seq_add(s, n)[s.len() as int] == n);
    }
    if s.contains(n) {
        let k = s.index_of(n);
        let r = s.remove(k);
        assert(0 <= k < s.len() && s[k] == n);
        if r.contains(n) {
            let j = choose|j: int| 0 <= j < r.len() && r[j] == n;
            if j < k {
                assert(s[j] == n);
            } else {
                assert(s[j + 1] == n);
            }
        }
        if m != n {
            if s.contains(m) {
                let j = choose|j: int| 0 <= j < s.len() && s[j] == m;
                if j < k {
                    assert(r[j] == m);
                } else {
                    assert(r[j - 1] == m);
                }
            }
            if r.contains(m) {
                let j = choose|j: int| 0 <= j < r.len() && r[j] == m;
                if j < k {
                    assert(s[j] == m);
                } else {
                    assert(s[j + 1] == m);
                }
            }
        }
    }
}

/// For the `amongus` drone: adding a sender for a node that is not a neighbour
/// and then removing it gives the drone back its former state.
pub proof fn law_add_then_remove_sender(s: AmongUsView, n: NodeId)
    requires
        s.neighbors.no_duplicates(),
        !s.neighbors.contains(n),
    ensures
        command_spec(command_spec(s, DroneCommand::AddSender(n)), DroneCommand::RemoveSender(n)) == s,
{
    law_add_then_remove_neighbor(s.neighbors, n);
}

/// A packet that reaches the drone on its route and can go on is passed one
/// hop on: the drone puts it, with its payload, route and session unchanged
/// and its hop index moved on by one, on the channel to the next hop.
pub proof fn law_forward_moves_one_hop(s: AmongUsView, p: PacketView)
    requires
        handles_without_panic(s, p),
        p.header.hops[p.header.hop_index as int] == s.id,
        p.header.hop_index + 1 < p.header.hops.len(),
        s.neighbors.contains(p.header.hops[p.header.hop_index + 1int]),
        !(p.pack_type is FloodRequest),
    ensures
        handle_packet_spec(s, p, false).1.contains(ActionView::Forward {
            to: p.header.hops[p.header.hop_index + 1int],
            packet: forwarded_view(p),
        }),
        forwarded_view(p).header.hop_index == p.header.hop_index + 1,
        forwarded_view(p).header.hops == p.header.hops,
        forwarded_view(p).pack_type == p.pack_type,
        forwarded_view(p).session_id == p.session_id,
{
    let next = p.header.hops[p.header.hop_index + 1int];
    let acts = handle_packet_spec(s, p, false).1;
    let fwd = ActionView::Forward { to: next, packet: forwarded_view(p) };
    if p.pack_type is MsgFragment {
        assert(acts[2] == fwd);
    } else {
        assert(acts[1] == fwd);
    }
}

/// Once crashed, a drone puts nothing on any channel: a crash drops every
/// neighbour, and a crashing drone forwards no packet it still receives.
pub proof fn law_crashed_drone_forwards_nothing(s: AmongUsView, p: PacketView)
    ensures
        step_command_spec(s, DroneCommand::Crash).2,
        step_command_spec(s, DroneCommand::Crash).0.neighbors.len() == 0,
        forall|i: int| 0 <= i < crashing_spec(step_command_spec(s, DroneCommand::Crash).0, p).len()
            ==> !(#[trigger] crashing_spec(step_command_spec(s, DroneCommand::Crash).0, p)[i] is Forward),
{
}

/// A crashing drone drops flood requests without a trace.
pub proof fn law_crashing_drops_floods(s: AmongUsView, p: PacketView)
    requires
        p.pack_type is FloodRequest,
    ensures
        crashing_spec(s, p) == Seq::<ActionView>::empty(),
{
}

/// Retracing a route: the reversed header of the first `k` hops lists them
/// from the last to the first, and reversing it again gives the hops back.
pub proof fn law_reversed_header_retraces(hops: Seq<NodeId>, k: int)
    requires
        0 <= k <= hops.len(),
    ensures
        reversed_header(hops, k).hops.len() == k,
        forall|j: int| 0 <= j < k ==> #[trigger] reversed_header(hops, k).hops[j] == hops[k - 1 - j],
        reversed_header(reversed_header(hops, k).hops, k).hops == hops.take(k),
{
    let r = reversed_header(hops, k).hops;
    assert(reversed_header(r, k).hops =~= hops.take(k));
}

/// A negative acknowledgement travels back the way its packet came: made
/// by the drone `sender` of a packet at index `h` of its route, it starts at
/// the drone with the hop index at 1, then lists the hops before index `h`
/// from the nearest, the hop the packet came from, back to the first. The
/// `amongus`, `pie` and `nita` drones build their negative acknowledgements
/// this way.
pub proof fn law_nack_goes_back_along_route(sender: NodeId, p: PacketView, t: NackType)
    requires
        p.header.hop_index < p.header.hops.len(),
    ensures
        ({
            let n = nack_of_view(sender, p, t);
            let h = p.header.hop_index as int;
            &&& n.header.hop_index == 1
            &&& n.header.hops.len() == h + 1
            &&& n.header.hops[0] == sender
            &&& forall|j: int| 1 <= j <= h ==> #[trigger] n.header.hops[j] == p.header.hops[h - j]
            &&& h >= 1 ==> n.header.hops[1] == p.header.hops[h - 1] && n.header.hops.last() == p.header.hops[0]
        }),
{
    let n = nack_of_view(sender, p, t);
    let h = p.header.hop_index as int;
    let r = p.header.hops.take(h).reverse();
    assert forall|j: int| 1 <= j <= h implies #[trigger] n.header.hops[j] == p.header.hops[h - j] by {
        assert(n.header.hops[j] == r[j - 1]);
    }
}

/// The `pie` drone also puts packets only on the channels of its own
/// neighbours.
pub proof fn law_pie_forwards_only_to_neighbors(s: PieView, p: PacketView, dropped: bool)
    requires
        pie_handles_without_panic(p, dropped),
    ensures
        forwards_within(pie_handle_spec(s, p, dropped), s.neighbors),
{
    let acts = pie_handle_spec(s, p, dropped);
    assert forall|i: int| 0 <= i < acts.len() implies (#[trigger] acts[i] matches ActionView::Forward { to, .. } ==> s.neighbors.contains(to)) by {
        if p.pack_type is FloodRequest {
            let t = s.neighbors.filter(not_previous(p));
            let f = pie_flood_actions(s, p);
            if i >= 1 {
                assert(acts[i] == f[i - 1]);
                assert(t.contains(t[i - 1]));
                s.neighbors.lemma_filter_contains_rev(not_previous(p), t[i - 1]);
            }
        }
    }
}

/// A flood request is never sent back to the hop it came from.
pub proof fn law_pie_flood_not_sent_back(s: PieView, p: PacketView)
    requires
        p.pack_type is FloodRequest,
        1 <= p.header.hop_index <= p.header.hops.len(),
    ensures
        forall|i: int| 0 <= i < pie_flood_actions(s, p).len() ==>
            (#[trigger] pie_flood_actions(s, p)[i] matches ActionView::Forward { to, .. } ==> to != p.header.hops[p.header.hop_index - 1]),
{
    let t = s.neighbors.filter(not_previous(p));
    broadcast use vstd::seq_lib::group_filter_ensures;
    assert forall|i: int| 0 <= i < pie_flood_actions(s, p).len() implies
        (#[trigger] pie_flood_actions(s, p)[i] matches ActionView::Forward { to, .. } ==> to != p.header.hops[p.header.hop_index - 1]) by {
        assert(not_previous(p)(t[i]));
    }
}

/// The `nita` drone puts packets only on the channels of its own neighbours.
pub proof fn law_nita_forwards_only_to_neighbors(s: NitaView, p: PacketView, dropped: bool, fresh: Seq<u64>)
    requires
        fresh.len() >= fresh_needed(s),
    ensures
        forwards_within(nita_step_spec(s, p, dropped, fresh).1, s.neighbors),
{
    let acts = nita_step_spec(s, p, dropped, fresh).1;
    assert forall|i: int| 0 <= i < acts.len() implies (#[trigger] acts[i] matches ActionView::Forward { to, .. } ==> s.neighbors.contains(to)) by {
        if verify_spec(s, p).0 {
            let r = nita_handle_spec(s, p, dropped, fresh).1;
            if i < r.len() {
                assert(acts[i] == r[i]);
                if p.pack_type is FloodRequest && s.neighbors.len() > 0 {
                    if acts[i] is Forward {
                        assert(s.neighbors.contains(s.neighbors[i]));
                    }
                }
            }
        }
    }
}

/// A packet that fails the route check is not passed on: the only action
/// is the report of its negative acknowledgement.
pub proof fn law_nita_refused_packets_are_reported(s: NitaView, p: PacketView, dropped: bool, fresh: Seq<u64>)
    requires
        !verify_spec(s, p).0,
    ensures
        nita_step_spec(s, p, dropped, fresh).0 == s,
        nita_step_spec(s, p, dropped, fresh).1.len() == 1,
        nita_step_spec(s, p, dropped, fresh).1[0] matches ActionView::Notify(DroneEventView::PacketDropped(q))
            && q.pack_type is Nack,
{
}

/// The `nita` drone relays a flood at most once: after a flood request has
/// been handled, the same flood id is remembered, and handling a request of
/// that flood again only reports a negative acknowledgement.
pub proof fn law_nita_flood_relayed_once(s: NitaView, p: PacketView, q: PacketView, d1: bool, d2: bool, f1: Seq<u64>, f2: Seq<u64>)
    requires
        p.pack_type is FloodRequest,
        q.pack_type is FloodRequest,
        p.pack_type->FloodRequest_0.flood_id == q.pack_type->FloodRequest_0.flood_id,
    ensures
        nita_handle_spec(s, p, d1, f1).0.flood_ids.contains(p.pack_type->FloodRequest_0.flood_id),
        nita_handle_spec(nita_handle_spec(s, p, d1, f1).0, q, d2, f2).1 == seq![
            ActionView::Notify(DroneEventView::PacketDropped(
                nack_of_view(s.id, q, NackType::ErrorInRouting(1)),
            )),
        ],
{
}

/// The `nita_basic` drone puts packets only on the
/// channels of its own neighbours.
pub proof fn law_basic_forwards_only_to_neighbors(s: BasicView, p: PacketView, dropped: bool, fresh: Seq<u64>)
    requires
        fresh.len() >= s.neighbors.len(),
    ensures
        forwards_within(basic_handle_spec(s, p, dropped, fresh).1, s.neighbors),
{
    let acts = basic_handle_spec(s, p, dropped, fresh).1;
    assert forall|i: int| 0 <= i < acts.len() implies (#[trigger] acts[i] matches ActionView::Forward { to, .. } ==> s.neighbors.contains(to)) by {
        if p.pack_type is FloodRequest && acts[i] is Forward {
            assert(s.neighbors.contains(s.neighbors[i]));
        }
    }
}

/// The `nita_basic` drone relays a flood at most
/// once: after a request of a flood has been handled, any request of the same
/// flood is ignored.
pub proof fn law_basic_flood_relayed_once(s: BasicView, p: PacketView, q: PacketView, d1: bool, d2: bool, f1: Seq<u64>, f2: Seq<u64>)
    requires
        p.pack_type is FloodRequest,
        q.pack_type is FloodRequest,
        p.pack_type->FloodRequest_0.flood_id == q.pack_type->FloodRequest_0.flood_id,
    ensures
        basic_handle_spec(basic_handle_spec(s, p, d1, f1).0, q, d2, f2).1 == Seq::<ActionView>::empty(),
{
}
/// After `key` is mapped to `value`, the pair is found; no other value is
/// found under `key`; and what is found under any other key is as before
/// (the flood records of the `amongus` drone, flood id to initiator).
pub proof fn law_pair_found_after_insert(m: Map<u64, NodeId>, key: u64, value: NodeId, other_key: u64, other_value: NodeId)
    ensures
        holds_pair(m.insert(key, value), key, value),
        other_value != value ==> !holds_pair(m.insert(key, value), key, other_value),
        other_key != key ==> holds_pair(m.insert(key, value), other_key, other_value) == holds_pair(m, other_key, other_value),
{
}

/// An input to the main loop of the `nita` drones: a packet with the outcome
/// of its drop draw and the session ids drawn for it, or a controller command.
pub enum NitaInput {
    Packet(PacketView, bool, Seq<u64>),
    Command(DroneCommand),
}

/// The state of the `nita` drone after it has taken `inputs` in order.
pub open spec fn nita_after(s: NitaView, inputs: Seq<NitaInput>) -> NitaView
    decreases inputs.len(),
{
    if inputs.len() == 0 {
        s
    } else {
        let s1 = nita_after(s, inputs.drop_last());
        match inputs.last() {
            NitaInput::Packet(p, d, f) => nita_step_spec(s1, p, d, f).0,
            NitaInput::Command(c) => nita_command_spec(s1, c),
        }
    }
}

/// The state of the `nita_basic` drone after it has taken `inputs` in order.
pub open spec fn basic_after(s: BasicView, inputs: Seq<NitaInput>) -> BasicView
    decreases inputs.len(),
{
    if inputs.len() == 0 {
        s
    } else {
        let s1 = basic_after(s, inputs.drop_last());
        match inputs.last() {
            NitaInput::Packet(p, d, f) => basic_handle_spec(s1, p, d, f).0,
            NitaInput::Command(c) => basic_command_spec(s1, c),
        }
    }
}

/// The `nita` drone relays a flood at most once, across any later calls:
/// once it has seen the flood id `f`, it keeps it (and its own id) through
/// any sequence of packets and commands, and a later request of `f` is never
/// passed on: once past the route check it only reports a negative
/// acknowledgement.
pub proof fn law_nita_flood_remembered(s: NitaView, f: u64, inputs: Seq<NitaInput>, q: PacketView, d: bool, fresh: Seq<u64>)
    requires
        s.flood_ids.contains(f),
        q.pack_type matches PacketTypeView::FloodRequest(fr) && fr.flood_id == f,
    ensures
        nita_after(s, inputs).flood_ids.contains(f),
        nita_after(s, inputs).id == s.id,
        nita_handle_spec(nita_after(s, inputs), q, d, fresh).1 == nita_nack_actions(s, q, NackType::ErrorInRouting(1)),
        !forwards_flood_request(nita_step_spec(nita_after(s, inputs), q, d, fresh).1),
    decreases inputs.len(),
{
    if inputs.len() > 0 {
        law_nita_flood_remembered(s, f, inputs.drop_last(), q, d, fresh);
    }
    let s1 = nita_after(s, inputs);
    let acts = nita_step_spec(s1, q, d, fresh).1;
    if forwards_flood_request(acts) {
        let i = choose|i: int| 0 <= i < acts.len() && (#[trigger] acts[i] matches ActionView::Forward { packet, .. } && packet.pack_type is FloodRequest);
        if verify_spec(s1, q).0 {
            let r = nita_handle_spec(s1, q, d, fresh).1;
            if i < r.len() {
                assert(acts[i] == r[i]);
            } else {
                assert(acts[i] == ActionView::PlaySound(Sound::Received));
            }
        }
    }
}

/// The `nita_basic` drone relays a flood at most once, across any later
/// calls: once it has seen the flood id `f`, it keeps it through any
/// sequence of packets and commands, and a later request of `f` is ignored.
pub proof fn law_basic_flood_remembered(s: BasicView, f: u64, inputs: Seq<NitaInput>, q: PacketView, d: bool, fresh: Seq<u64>)
    requires
        s.flood_ids.contains(f),
        q.pack_type matches PacketTypeView::FloodRequest(fr) && fr.flood_id == f,
    ensures
        basic_after(s, inputs).flood_ids.contains(f),
        basic_handle_spec(basic_after(s, inputs), q, d, fresh) == (basic_after(s, inputs), Seq::<ActionView>::empty()),
    decreases inputs.len(),
{
    if inputs.len() > 0 {
        law_basic_flood_remembered(s, f, inputs.drop_last(), q, d, fresh);
    }
}
} // verus!
