//! What each drone does with each kind of packet and command, stated over
//! every state and every input: which packets go out, to whom, carrying
//! what, and what the controller is told.
use vstd::prelude::*;
use crate::packet::{NodeId, NodeType, NackType, PacketView, PacketTypeView, HeaderView, FloodRequestView, DroneEventView, trace_ids};
use crate::action::{ActionView, Sound};
use crate::command::DroneCommand;
use crate::routing::nack_of_view;
use crate::pie::{PieView, pie_handle_spec, pie_command_spec, not_previous};
use crate::nita::{NitaView, nita_handle_spec, nita_step_spec, nita_command_spec};
use crate::nita_basic::{BasicView, basic_handle_spec, basic_command_spec};
use crate::packet::FloodResponseView;
use crate::amongus::{
    AmongUsView, handle_packet_spec, crashing_spec, step_command_spec, seen_flood, extended_trace,
    flood_targets, forward_all, off_path,
};

verus! {

/// `p` with its hop index moved on by one hop.
pub open spec fn moved_on(p: PacketView) -> PacketView {
    PacketView {
        pack_type: p.pack_type,
        header: HeaderView { hop_index: p.header.hop_index + 1, hops: p.header.hops },
        session_id: p.session_id,
    }
}

/// Whether `p` is an acknowledgement, a negative acknowledgement or a flood
/// response.
pub open spec fn is_reply(p: PacketView) -> bool {
    p.pack_type is Ack || p.pack_type is Nack || p.pack_type is FloodResponse
}

/// Whether every packet put on a channel among `acts` is `q`.
pub open spec fn only_forwards(acts: Seq<ActionView>, q: PacketView) -> bool {
    forall|i: int| 0 <= i < acts.len() ==> (#[trigger] acts[i] matches ActionView::Forward { packet, .. } ==> packet == q)
}

// ---------------------------------------------------------------------------
// The `amongus` drone
// ---------------------------------------------------------------------------

/// Whatever it receives, the `amongus` drone first plays the sound of a
/// received packet, keeps its id and neighbours, and changes its flood
/// records only on a flood request.
pub proof fn law_amongus_receives(s: AmongUsView, p: PacketView, d: bool)
    ensures
        handle_packet_spec(s, p, d).1.len() >= 1,
        handle_packet_spec(s, p, d).1[0] == ActionView::PlaySound(Sound::Received),
        handle_packet_spec(s, p, d).0.id == s.id,
        handle_packet_spec(s, p, d).0.neighbors == s.neighbors,
        !(p.pack_type is FloodRequest) ==> handle_packet_spec(s, p, d).0 == s,
{
}

/// An acknowledgement, negative acknowledgement or flood response that
/// stands at the drone, and whose next hop is a neighbour, goes to that hop
/// with its hop index moved on, and the controller is told it was sent.
pub proof fn law_amongus_passes_replies_on(s: AmongUsView, p: PacketView, d: bool)
    requires
        is_reply(p),
        p.header.hop_index + 1 < p.header.hops.len(),
        p.header.hops[p.header.hop_index as int] == s.id,
        s.neighbors.contains(p.header.hops[p.header.hop_index + 1int]),
    ensures
        handle_packet_spec(s, p, d) == (s, seq![
            ActionView::PlaySound(Sound::Received),
            ActionView::Forward { to: p.header.hops[p.header.hop_index + 1int], packet: moved_on(p) },
            ActionView::Notify(DroneEventView::PacketSent(moved_on(p))),
        ]),
{
}

/// A fragment that stands at the drone, whose next hop is a neighbour and
/// that the drop draw spares, goes to that hop with its hop index moved on.
pub proof fn law_amongus_passes_fragments_on(s: AmongUsView, p: PacketView)
    requires
        p.pack_type is MsgFragment,
        p.header.hop_index + 1 < p.header.hops.len(),
        p.header.hops[p.header.hop_index as int] == s.id,
        s.neighbors.contains(p.header.hops[p.header.hop_index + 1int]),
    ensures
        handle_packet_spec(s, p, false) == (s, seq![
            ActionView::PlaySound(Sound::Received),
            ActionView::PlaySound(Sound::Sent),
            ActionView::Forward { to: p.header.hops[p.header.hop_index + 1int], packet: moved_on(p) },
            ActionView::Notify(DroneEventView::PacketSent(moved_on(p))),
        ]),
{
}

/// A fragment that the drop draw hits is not passed on: the controller is
/// told it was dropped, the drop sound plays, and the only packet put on a
/// channel is a `Dropped` negative acknowledgement, which goes back to the
/// previous hop when there is one.
pub proof fn law_amongus_drops_fragments(s: AmongUsView, p: PacketView)
    requires
        p.pack_type is MsgFragment,
        p.header.hop_index + 1 < p.header.hops.len(),
        p.header.hops[p.header.hop_index as int] == s.id,
        s.neighbors.contains(p.header.hops[p.header.hop_index + 1int]),
    ensures
        ({
            let r = handle_packet_spec(s, p, true);
            let nack = nack_of_view(s.id, p, NackType::Dropped);
            &&& r.0 == s
            &&& r.1.contains(ActionView::PlaySound(Sound::Dropped))
            &&& r.1.contains(ActionView::Notify(DroneEventView::PacketDropped(p)))
            &&& only_forwards(r.1, nack)
            &&& p.header.hop_index >= 1 ==> r.1.contains(ActionView::Notify(DroneEventView::PacketSent(nack)))
        }),
{
    let r = handle_packet_spec(s, p, true);
    let nack = nack_of_view(s.id, p, NackType::Dropped);
    let n = r.1.len();
    assert(r.1[n - 2] == ActionView::PlaySound(Sound::Dropped));
    assert(r.1[n - 1] == ActionView::Notify(DroneEventView::PacketDropped(p)));
    if p.header.hop_index >= 1 {
        assert(r.1[n - 3] == ActionView::Notify(DroneEventView::PacketSent(nack)));
    }
}

/// A packet other than a flood request that stands at the drone but whose
/// next hop is not a neighbour is not passed on: the only packet put on a
/// channel is an `ErrorInRouting` negative acknowledgement naming that hop,
/// sent back when the route has a previous hop, and an acknowledgement,
/// negative acknowledgement or flood response is handed to the controller.
pub proof fn law_amongus_unroutable(s: AmongUsView, p: PacketView, d: bool)
    requires
        !(p.pack_type is FloodRequest),
        p.header.hop_index + 1 < p.header.hops.len(),
        p.header.hops[p.header.hop_index as int] == s.id,
        !s.neighbors.contains(p.header.hops[p.header.hop_index + 1int]),
    ensures
        ({
            let r = handle_packet_spec(s, p, d);
            let nack = nack_of_view(s.id, p, NackType::ErrorInRouting(p.header.hops[p.header.hop_index + 1int]));
            &&& r.0 == s
            &&& r.1.contains(ActionView::Notify(DroneEventView::ControllerShortcut(p))) <==> is_reply(p)
            &&& only_forwards(r.1, nack)
            &&& p.header.hop_index >= 1 ==> r.1.contains(ActionView::Notify(DroneEventView::PacketSent(nack)))
        }),
{
    lemma_nack_back_facts(s, p, d, NackType::ErrorInRouting(p.header.hops[p.header.hop_index + 1int]));
}

/// A packet other than a flood request whose current hop is not the drone
/// is not passed on: the only packet put on a channel is an
/// `UnexpectedRecipient` negative acknowledgement naming the drone, sent back
/// when the route has a previous hop, and an acknowledgement, negative
/// acknowledgement or flood response is handed to the controller.
pub proof fn law_amongus_wrong_recipient(s: AmongUsView, p: PacketView, d: bool)
    requires
        !(p.pack_type is FloodRequest),
        p.header.hop_index < p.header.hops.len(),
        p.header.hops[p.header.hop_index as int] != s.id,
    ensures
        ({
            let r = handle_packet_spec(s, p, d);
            let nack = nack_of_view(s.id, p, NackType::UnexpectedRecipient(s.id));
            &&& r.0 == s
            &&& r.1.contains(ActionView::Notify(DroneEventView::ControllerShortcut(p))) <==> is_reply(p)
            &&& only_forwards(r.1, nack)
            &&& p.header.hop_index >= 1 ==> r.1.contains(ActionView::Notify(DroneEventView::PacketSent(nack)))
        }),
{
    lemma_nack_back_facts(s, p, d, NackType::UnexpectedRecipient(s.id));
}

proof fn lemma_nack_back_facts(s: AmongUsView, p: PacketView, d: bool, t: NackType)
    requires
        !(p.pack_type is FloodRequest),
        p.header.hop_index < p.header.hops.len(),
        p.header.hops[p.header.hop_index as int] != s.id && t == NackType::UnexpectedRecipient(s.id)
        || p.header.hops[p.header.hop_index as int] == s.id && p.header.hop_index + 1 < p.header.hops.len()
            && !s.neighbors.contains(p.header.hops[p.header.hop_index + 1int])
            && t == NackType::ErrorInRouting(p.header.hops[p.header.hop_index + 1int]),
    ensures
        ({
            let r = handle_packet_spec(s, p, d);
            let nack = nack_of_view(s.id, p, t);
            &&& r.0 == s
            &&& r.1.contains(ActionView::Notify(DroneEventView::ControllerShortcut(p))) <==> is_reply(p)
            &&& only_forwards(r.1, nack)
            &&& p.header.hop_index >= 1 ==> r.1.contains(ActionView::Notify(DroneEventView::PacketSent(nack)))
        }),
{
    let r = handle_packet_spec(s, p, d);
    let nack = nack_of_view(s.id, p, t);
    let n = r.1.len();
    let sc = ActionView::Notify(DroneEventView::ControllerShortcut(p));
    if is_reply(p) {
        assert(r.1[n - 1] == sc);
    } else {
        assert forall|i: int| 0 <= i < n implies r.1[i] != sc by {}
    }
    if p.header.hop_index >= 1 {
        let k = if is_reply(p) { n - 2 } else { n - 1 };
        assert(r.1[k] == ActionView::Notify(DroneEventView::PacketSent(nack)));
    }
}

/// A packet other than a flood request that ends at the drone, after at
/// least one hop, is not passed on: the only packet put on a channel is a
/// `DestinationIsDrone` negative acknowledgement, which the controller is
/// told was sent.
pub proof fn law_amongus_destination_is_drone(s: AmongUsView, p: PacketView, d: bool)
    requires
        !(p.pack_type is FloodRequest),
        1 <= p.header.hop_index,
        p.header.hop_index + 1 == p.header.hops.len(),
        p.header.hops[p.header.hop_index as int] == s.id,
    ensures
        ({
            let r = handle_packet_spec(s, p, d);
            let nack = nack_of_view(s.id, p, NackType::DestinationIsDrone);
            &&& r.0 == s
            &&& only_forwards(r.1, nack)
            &&& r.1.last() == ActionView::Notify(DroneEventView::PacketSent(nack))
        }),
{
}

/// A flood request that the drone has not seen from its initiator is
/// recorded, and passed on, with the drone added to its trace and its header
/// unchanged, to exactly the neighbours that are not on that trace; when
/// there are none, no flood request is put on a channel.
pub proof fn law_amongus_new_flood(s: AmongUsView, p: PacketView, d: bool)
    requires
        p.pack_type matches PacketTypeView::FloodRequest(fr) && !seen_flood(s, fr),
    ensures
        ({
            let fr = p.pack_type->FloodRequest_0;
            let r = handle_packet_spec(s, p, d);
            let trace = fr.path_trace.push((s.id, NodeType::Drone));
            let fwd = PacketView {
                pack_type: PacketTypeView::FloodRequest(
                    FloodRequestView { flood_id: fr.flood_id, initiator_id: fr.initiator_id, path_trace: trace },
                ),
                header: p.header,
                session_id: p.session_id,
            };
            &&& r.0.flood_ids == s.flood_ids.insert(fr.flood_id, fr.initiator_id)
            &&& forall|i: int| 0 <= i < r.1.len() ==> (#[trigger] r.1[i] matches ActionView::Forward { to, packet }
                ==> packet.pack_type is FloodRequest ==> packet == fwd && s.neighbors.contains(to) && !trace_ids(trace).contains(to))
            &&& forall|n: NodeId| s.neighbors.contains(n) && !trace_ids(trace).contains(n)
                ==> r.1.contains(ActionView::Forward { to: n, packet: fwd })
        }),
{
    let fr = p.pack_type->FloodRequest_0;
    let r = handle_packet_spec(s, p, d);
    let trace = extended_trace(s, fr);
    let fwd = PacketView {
        pack_type: PacketTypeView::FloodRequest(
            FloodRequestView { flood_id: fr.flood_id, initiator_id: fr.initiator_id, path_trace: trace },
        ),
        header: p.header,
        session_id: p.session_id,
    };
    let targets = flood_targets(s.neighbors, trace_ids(trace));
    let pred = off_path(trace_ids(trace));
    s.neighbors.filter_lemma(pred);
    assert forall|n: NodeId| s.neighbors.contains(n) && !trace_ids(trace).contains(n)
        implies targets.contains(n) by {
        let j = choose|j: int| 0 <= j < s.neighbors.len() && s.neighbors[j] == n;
        assert(pred(s.neighbors[j]));
    }
    if targets.len() > 0 {
        let tail = forward_all(targets, fwd);
        assert(r.1 == seq![ActionView::PlaySound(Sound::Received)] + tail);
        assert forall|i: int| 0 <= i < r.1.len() implies (#[trigger] r.1[i] matches ActionView::Forward { to, packet }
            ==> packet.pack_type is FloodRequest ==> packet == fwd && s.neighbors.contains(to) && !trace_ids(trace).contains(to)) by {
            if i >= 1 {
                assert(r.1[i] == tail[i - 1]);
                assert(pred(targets[i - 1]));
                s.neighbors.lemma_filter_contains_rev(pred, targets[i - 1]);
            }
        }
        assert forall|n: NodeId| s.neighbors.contains(n) && !trace_ids(trace).contains(n)
            implies r.1.contains(ActionView::Forward { to: n, packet: fwd }) by {
            assert(targets.contains(n));
            let k = choose|k: int| 0 <= k < targets.len() && targets[k] == n;
            assert(r.1[k + 1] == tail[k]);
        }
    } else {
        assert forall|n: NodeId| s.neighbors.contains(n) && !trace_ids(trace).contains(n)
            implies r.1.contains(ActionView::Forward { to: n, packet: fwd }) by {
            assert(targets.contains(n));
        }
        let tail = r.1.drop_first();
        assert forall|i: int| 0 <= i < r.1.len() implies (#[trigger] r.1[i] matches ActionView::Forward { to, packet }
            ==> packet.pack_type is FloodRequest ==> packet == fwd && s.neighbors.contains(to) && !trace_ids(trace).contains(to)) by {
            if i >= 1 {
                assert(r.1[i] == tail[i - 1]);
            }
        }
    }
}


/// A crashing drone passes an acknowledgement, negative acknowledgement or
/// flood response on to the next hop of its route, with the hop index moved
/// on (on the channel when that hop is a neighbour, and the controller is
/// told it was sent); one whose route has no next hop is dropped. All three
/// are treated alike.
pub proof fn law_crashing_passes_replies_on(s: AmongUsView, p: PacketView)
    requires
        is_reply(p),
    ensures
        p.header.hop_index + 1 < p.header.hops.len() ==> crashing_spec(s, p) == (if s.neighbors.contains(
            p.header.hops[p.header.hop_index + 1int],
        ) {
            seq![ActionView::Forward { to: p.header.hops[p.header.hop_index + 1int], packet: moved_on(p) }]
        } else {
            seq![]
        }) + seq![ActionView::Notify(DroneEventView::PacketSent(moved_on(p)))],
        p.header.hop_index + 1 >= p.header.hops.len() ==> crashing_spec(s, p) == Seq::<ActionView>::empty(),
{
}

/// A crashing drone does not pass a fragment on: the only packet it puts on
/// a channel is an `ErrorInRouting` negative acknowledgement naming itself,
/// sent back (and reported as sent) when the route has a previous hop.
pub proof fn law_crashing_refuses_fragments(s: AmongUsView, p: PacketView)
    requires
        p.pack_type is MsgFragment,
        p.header.hop_index < p.header.hops.len(),
    ensures
        ({
            let nack = nack_of_view(s.id, p, NackType::ErrorInRouting(s.id));
            &&& only_forwards(crashing_spec(s, p), nack)
            &&& p.header.hop_index >= 1 <==> crashing_spec(s, p).contains(ActionView::Notify(DroneEventView::PacketSent(nack)))
        }),
{
    let r = crashing_spec(s, p);
    let nack = nack_of_view(s.id, p, NackType::ErrorInRouting(s.id));
    if p.header.hop_index >= 1 {
        assert(r.last() == ActionView::Notify(DroneEventView::PacketSent(nack)));
    }
}

/// A crash empties the drone's neighbours, plays the crash sound and stops
/// its loop, keeping its id and flood records; any other command stops
/// nothing and produces no action. Setting the drop rate leaves the state
/// as it is; adding (removing) a sender makes it a neighbour (not one) and
/// leaves every other node's membership, the id and the flood records as
/// they were.
pub proof fn law_amongus_commands(s: AmongUsView, c: DroneCommand, m: NodeId)
    requires
        s.neighbors.no_duplicates(),
    ensures
        ({
            let r = step_command_spec(s, c);
            &&& r.0.id == s.id
            &&& r.0.flood_ids == s.flood_ids
            &&& r.2 <==> c is Crash
            &&& c is Crash ==> r.0.neighbors.len() == 0 && r.1 == seq![ActionView::PlaySound(Sound::Crash)]
            &&& !(c is Crash) ==> r.1.len() == 0
            &&& c is SetPacketDropRate ==> r.0 == s
            &&& c matches DroneCommand::AddSender(n) ==> r.0.neighbors.contains(n)
                && (m != n ==> (r.0.neighbors.contains(m) <==> s.neighbors.contains(m)))
            &&& c matches DroneCommand::RemoveSender(n) ==> !r.0.neighbors.contains(n)
                && (m != n ==> (r.0.neighbors.contains(m) <==> s.neighbors.contains(m)))
        }),
{
    match c {
        DroneCommand::AddSender(n) => {
            crate::laws::law_neighbor_membership(s.neighbors, n, m);
        },
        DroneCommand::RemoveSender(n) => {
            crate::laws::law_neighbor_membership(s.neighbors, n, m);
        },
        _ => {},
    }
}


// ---------------------------------------------------------------------------
// The `pie` drone
// ---------------------------------------------------------------------------

/// The sound the `pie` drone plays on `p`: failure for a negative
/// acknowledgement or a dropped fragment, success otherwise.
pub open spec fn pie_sound(p: PacketView, dropped: bool) -> ActionView {
    if p.pack_type is Nack || (p.pack_type is MsgFragment && dropped) {
        ActionView::PlaySound(Sound::Fail)
    } else {
        ActionView::PlaySound(Sound::Success)
    }
}

/// Whether the `pie` drone passes `p` on (rather than dropping it or
/// flooding it): an acknowledgement, negative acknowledgement, flood
/// response, or a fragment that the drop draw spares.
pub open spec fn pie_passes(p: PacketView, dropped: bool) -> bool {
    is_reply(p) || (p.pack_type is MsgFragment && !dropped)
}

/// The hop a negative acknowledgement of `p` made at the drone goes back to.
proof fn lemma_nack_goes_to_previous(sender: NodeId, p: PacketView, t: NackType)
    requires
        p.header.hop_index < p.header.hops.len(),
    ensures
        nack_of_view(sender, p, t).header.hops.len() > 1 <==> p.header.hop_index >= 1,
        p.header.hop_index >= 1 ==> nack_of_view(sender, p, t).header.hops[1] == p.header.hops[p.header.hop_index - 1int],
{
    crate::laws::law_nack_goes_back_along_route(sender, p, t);
}

/// A packet that the `pie` drone passes on, whose next hop is a neighbour,
/// goes to that hop with its hop index moved on; nothing else goes out.
pub proof fn law_pie_passes_on(s: PieView, p: PacketView, d: bool)
    requires
        pie_passes(p, d),
        p.header.hop_index + 1 < p.header.hops.len(),
        s.neighbors.contains(p.header.hops[p.header.hop_index + 1int]),
    ensures
        pie_handle_spec(s, p, d) == seq![
            pie_sound(p, d),
            ActionView::Forward { to: p.header.hops[p.header.hop_index + 1int], packet: moved_on(p) },
        ],
{
}

/// A packet that the `pie` drone passes on, whose next hop is not a
/// neighbour, is not passed on: an `ErrorInRouting` negative acknowledgement
/// naming that hop goes back to the previous hop when there is one and it is
/// a neighbour, and nothing else goes out.
pub proof fn law_pie_unroutable(s: PieView, p: PacketView, d: bool)
    requires
        pie_passes(p, d),
        p.header.hop_index + 1 < p.header.hops.len(),
        !s.neighbors.contains(p.header.hops[p.header.hop_index + 1int]),
    ensures
        pie_handle_spec(s, p, d) == seq![pie_sound(p, d)] + (if p.header.hop_index >= 1
            && s.neighbors.contains(p.header.hops[p.header.hop_index - 1int]) {
            seq![ActionView::Forward {
                to: p.header.hops[p.header.hop_index - 1int],
                packet: nack_of_view(s.id, p, NackType::ErrorInRouting(p.header.hops[p.header.hop_index + 1int])),
            }]
        } else {
            seq![]
        }),
{
    lemma_nack_goes_to_previous(s.id, p, NackType::ErrorInRouting(p.header.hops[p.header.hop_index + 1int]));
}

/// A packet that the `pie` drone passes on, at the end of its route, only
/// makes its sound.
pub proof fn law_pie_route_ends(s: PieView, p: PacketView, d: bool)
    requires
        pie_passes(p, d),
        p.header.hop_index + 1 >= p.header.hops.len(),
    ensures
        pie_handle_spec(s, p, d) == seq![pie_sound(p, d)],
{
}

/// A fragment that the drop draw hits is not passed on: a `Dropped`
/// negative acknowledgement goes back to the previous hop when there is one
/// and it is a neighbour, and nothing else goes out.
pub proof fn law_pie_drops_fragments(s: PieView, p: PacketView)
    requires
        p.pack_type is MsgFragment,
        p.header.hop_index < p.header.hops.len(),
    ensures
        pie_handle_spec(s, p, true) == seq![ActionView::PlaySound(Sound::Fail)] + (if p.header.hop_index >= 1
            && s.neighbors.contains(p.header.hops[p.header.hop_index - 1int]) {
            seq![ActionView::Forward {
                to: p.header.hops[p.header.hop_index - 1int],
                packet: nack_of_view(s.id, p, NackType::Dropped),
            }]
        } else {
            seq![]
        }),
{
    lemma_nack_goes_to_previous(s.id, p, NackType::Dropped);
}

/// A flood request plays the success sound and goes out unchanged to
/// exactly the neighbours other than the hop it came from, one packet each.
pub proof fn law_pie_floods(s: PieView, p: PacketView, d: bool)
    requires
        p.pack_type is FloodRequest,
    ensures
        ({
            let r = pie_handle_spec(s, p, d);
            let came_from = |n: NodeId| 1 <= p.header.hop_index <= p.header.hops.len() && p.header.hops[p.header.hop_index - 1int] == n;
            &&& r.len() >= 1
            &&& r[0] == ActionView::PlaySound(Sound::Success)
            &&& forall|i: int| 1 <= i < r.len() ==> (#[trigger] r[i] matches ActionView::Forward { to, packet }
                && packet == p && s.neighbors.contains(to) && !came_from(to))
            &&& forall|n: NodeId| s.neighbors.contains(n) && !came_from(n) ==> r.contains(ActionView::Forward { to: n, packet: p })
        }),
{
    let r = pie_handle_spec(s, p, d);
    let pred = not_previous(p);
    let t = s.neighbors.filter(pred);
    s.neighbors.filter_lemma(pred);
    let tail = r.drop_first();
    assert forall|i: int| 1 <= i < r.len() implies (#[trigger] r[i] matches ActionView::Forward { to, packet }
        && packet == p && s.neighbors.contains(to) && !(1 <= p.header.hop_index <= p.header.hops.len() && p.header.hops[p.header.hop_index - 1int] == to)) by {
        assert(r[i] == tail[i - 1]);
        assert(pred(t[i - 1]));
        s.neighbors.lemma_filter_contains_rev(pred, t[i - 1]);
    }
    assert forall|n: NodeId| s.neighbors.contains(n) && !(1 <= p.header.hop_index <= p.header.hops.len() && p.header.hops[p.header.hop_index - 1int] == n)
        implies r.contains(ActionView::Forward { to: n, packet: p }) by {
        let j = choose|j: int| 0 <= j < s.neighbors.len() && s.neighbors[j] == n;
        assert(pred(s.neighbors[j]));
        assert(t.contains(n));
        let k = choose|k: int| 0 <= k < t.len() && t[k] == n;
        assert(r[k + 1] == tail[k]);
    }
}

/// Setting the drop rate, or a crash, leaves the `pie` drone's state as it
/// is; adding (removing) a sender makes it a neighbour (not one) and leaves
/// every other node's membership and the id as they were.
pub proof fn law_pie_commands(s: PieView, c: DroneCommand, m: NodeId)
    requires
        s.neighbors.no_duplicates(),
    ensures
        ({
            let r = pie_command_spec(s, c);
            &&& r.id == s.id
            &&& (c is SetPacketDropRate || c is Crash) ==> r == s
            &&& c matches DroneCommand::AddSender(n) ==> r.neighbors.contains(n)
                && (m != n ==> (r.neighbors.contains(m) <==> s.neighbors.contains(m)))
            &&& c matches DroneCommand::RemoveSender(n) ==> !r.neighbors.contains(n)
                && (m != n ==> (r.neighbors.contains(m) <==> s.neighbors.contains(m)))
        }),
{
    match c {
        DroneCommand::AddSender(n) => crate::laws::law_neighbor_membership(s.neighbors, n, m),
        DroneCommand::RemoveSender(n) => crate::laws::law_neighbor_membership(s.neighbors, n, m),
        _ => {},
    }
}


// ---------------------------------------------------------------------------
// The `nita` drone
// ---------------------------------------------------------------------------

/// The `nita` drone's route check: a packet whose current hop is not the
/// drone, or that ends at the drone, is refused with only a report of an
/// `UnexpectedRecipient` (resp. `DestinationIsDrone`) negative
/// acknowledgement, and the state is unchanged; any other packet is handled,
/// followed by the sound of a received packet.
pub proof fn law_nita_route_check(s: NitaView, p: PacketView, d: bool, fresh: Seq<u64>)
    ensures
        ({
            let h = p.header.hop_index as int;
            let hops = p.header.hops;
            let r = nita_step_spec(s, p, d, fresh);
            &&& !(h < hops.len() && hops[h] == s.id) ==> r == (s, seq![ActionView::Notify(
                DroneEventView::PacketDropped(nack_of_view(s.id, p, NackType::UnexpectedRecipient(s.id))),
            )])
            &&& h < hops.len() && hops[h] == s.id && h + 1 >= hops.len() ==> r == (s, seq![ActionView::Notify(
                DroneEventView::PacketDropped(nack_of_view(s.id, p, NackType::DestinationIsDrone)),
            )])
            &&& h + 1 < hops.len() && hops[h] == s.id ==> r.0 == nita_handle_spec(s, p, d, fresh).0
                && r.1.len() == nita_handle_spec(s, p, d, fresh).1.len() + 1
                && r.1.last() == ActionView::PlaySound(Sound::Received)
                && r.1.drop_last() == nita_handle_spec(s, p, d, fresh).1
        }),
{
    let r = nita_step_spec(s, p, d, fresh);
    let h = p.header.hop_index as int;
    if h + 1 < p.header.hops.len() && p.header.hops[h] == s.id {
        assert(r.1.drop_last() =~= nita_handle_spec(s, p, d, fresh).1);
    }
}

/// A fragment goes on unchanged to the hop after the drone when that hop is
/// a neighbour and the drop draw spares it; otherwise nothing goes out. The
/// state is unchanged.
pub proof fn law_nita_fragments(s: NitaView, p: PacketView, d: bool, fresh: Seq<u64>)
    requires
        p.pack_type is MsgFragment,
    ensures
        ({
            let next = p.header.hops[p.header.hop_index + 1int];
            &&& !d && s.neighbors.contains(next) ==> nita_handle_spec(s, p, d, fresh) == (s, seq![ActionView::Forward { to: next, packet: p }])
            &&& d || !s.neighbors.contains(next) ==> nita_handle_spec(s, p, d, fresh) == (s, Seq::<ActionView>::empty())
        }),
{
}

/// Acknowledgements and negative acknowledgements are only taken in: no
/// action, no change.
pub proof fn law_nita_acks_taken_in(s: NitaView, p: PacketView, d: bool, fresh: Seq<u64>)
    requires
        p.pack_type is Ack || p.pack_type is Nack,
    ensures
        nita_handle_spec(s, p, d, fresh) == (s, Seq::<ActionView>::empty()),
{
}

/// A flood response whose trace is not empty goes to the last node of its
/// trace, when that node is a neighbour, as the one packet that goes out: a
/// one-hop packet to it carrying the trace without that last entry, with a
/// fresh session id. One whose last node is not a neighbour, or whose trace
/// is empty (it has reached its initiator), goes nowhere. The state is
/// unchanged.
pub proof fn law_nita_flood_responses(s: NitaView, p: PacketView, d: bool, fresh: Seq<u64>)
    requires
        p.pack_type is FloodResponse,
    ensures
        ({
            let fr = p.pack_type->FloodResponse_0;
            let r = nita_handle_spec(s, p, d, fresh);
            &&& r.0 == s
            &&& fr.path_trace.len() > 0 && s.neighbors.contains(fr.path_trace.last().0) ==> r.1 == seq![
                ActionView::Forward {
                    to: fr.path_trace.last().0,
                    packet: PacketView {
                        pack_type: PacketTypeView::FloodResponse(
                            FloodResponseView { flood_id: fr.flood_id, path_trace: fr.path_trace.drop_last() },
                        ),
                        header: HeaderView { hop_index: 0, hops: seq![fr.path_trace.last().0] },
                        session_id: fresh[0],
                    },
                },
            ]
            &&& fr.path_trace.len() == 0 || !s.neighbors.contains(fr.path_trace.last().0) ==> r.1.len() == 0
        }),
{
}

/// A request of a flood id the drone has seen is answered only with a report
/// of an `ErrorInRouting(1)` negative acknowledgement; the state is unchanged.
pub proof fn law_nita_seen_flood(s: NitaView, p: PacketView, d: bool, fresh: Seq<u64>)
    requires
        p.pack_type matches PacketTypeView::FloodRequest(fr) && s.flood_ids.contains(fr.flood_id),
    ensures
        nita_handle_spec(s, p, d, fresh) == (s, seq![ActionView::Notify(
            DroneEventView::PacketDropped(nack_of_view(s.id, p, NackType::ErrorInRouting(1))),
        )]),
{
}

/// A request of a new flood id records the id, and goes to every neighbour
/// in turn, one packet each: a one-hop packet to that neighbour carrying the
/// request with the drone added to its trace, under a fresh session id. With
/// no neighbour, at most a flood response goes out, carrying that trace and
/// routed over its ids in reverse, under a fresh session id.
pub proof fn law_nita_new_flood(s: NitaView, p: PacketView, d: bool, fresh: Seq<u64>)
    requires
        p.pack_type matches PacketTypeView::FloodRequest(fr) && !s.flood_ids.contains(fr.flood_id),
    ensures
        ({
            let fr = p.pack_type->FloodRequest_0;
            let r = nita_handle_spec(s, p, d, fresh);
            let payload = PacketTypeView::FloodRequest(FloodRequestView {
                flood_id: fr.flood_id,
                initiator_id: fr.initiator_id,
                path_trace: fr.path_trace.push((s.id, NodeType::Drone)),
            });
            &&& r.0.flood_ids == s.flood_ids.insert(fr.flood_id)
            &&& r.0.id == s.id && r.0.neighbors == s.neighbors
            &&& s.neighbors.len() > 0 ==> r.1.len() == s.neighbors.len() && forall|i: int| 0 <= i < r.1.len() ==> #[trigger] r.1[i] == ActionView::Forward {
                to: s.neighbors[i],
                packet: PacketView {
                    pack_type: payload,
                    header: HeaderView { hop_index: 0, hops: seq![s.neighbors[i]] },
                    session_id: fresh[i],
                },
            }
            &&& s.neighbors.len() == 0 ==> r.1.len() <= 1 && forall|i: int| 0 <= i < r.1.len() ==> (#[trigger] r.1[i] matches ActionView::Forward { packet, .. }
                ==> packet == PacketView {
                    pack_type: PacketTypeView::FloodResponse(FloodResponseView {
                        flood_id: fr.flood_id,
                        path_trace: fr.path_trace.push((s.id, NodeType::Drone)),
                    }),
                    header: HeaderView { hop_index: 0, hops: trace_ids(fr.path_trace.push((s.id, NodeType::Drone))).reverse() },
                    session_id: fresh[0],
                })
        }),
{
}

/// Setting the drop rate, or a crash, leaves the `nita` drone's state as it
/// is; adding (removing) a sender makes it a neighbour (not one) and leaves
/// every other node's membership, the id and the flood records as they were.
pub proof fn law_nita_commands(s: NitaView, c: DroneCommand, m: NodeId)
    requires
        s.neighbors.no_duplicates(),
    ensures
        ({
            let r = nita_command_spec(s, c);
            &&& r.id == s.id
            &&& r.flood_ids == s.flood_ids
            &&& (c is SetPacketDropRate || c is Crash) ==> r == s
            &&& c matches DroneCommand::AddSender(n) ==> r.neighbors.contains(n)
                && (m != n ==> (r.neighbors.contains(m) <==> s.neighbors.contains(m)))
            &&& c matches DroneCommand::RemoveSender(n) ==> !r.neighbors.contains(n)
                && (m != n ==> (r.neighbors.contains(m) <==> s.neighbors.contains(m)))
        }),
{
    match c {
        DroneCommand::AddSender(n) => crate::laws::law_neighbor_membership(s.neighbors, n, m),
        DroneCommand::RemoveSender(n) => crate::laws::law_neighbor_membership(s.neighbors, n, m),
        _ => {},
    }
}

// ---------------------------------------------------------------------------
// The `nita_basic` drone
// ---------------------------------------------------------------------------

/// A fragment that the drop draw hits is reported dropped and goes nowhere;
/// one that it spares goes on unchanged to the hop its index names when that
/// hop is a neighbour, and nowhere otherwise. The state is unchanged.
pub proof fn law_basic_fragments(s: BasicView, p: PacketView, d: bool, fresh: Seq<u64>)
    requires
        p.pack_type is MsgFragment,
    ensures
        ({
            let next = p.header.hops[p.header.hop_index as int];
            &&& d ==> basic_handle_spec(s, p, d, fresh) == (s, seq![ActionView::Notify(DroneEventView::PacketDropped(p))])
            &&& !d && s.neighbors.contains(next) ==> basic_handle_spec(s, p, d, fresh) == (s, seq![ActionView::Forward { to: next, packet: p }])
            &&& !d && !s.neighbors.contains(next) ==> basic_handle_spec(s, p, d, fresh) == (s, Seq::<ActionView>::empty())
        }),
{
}

/// Acknowledgements, negative acknowledgements and flood responses are only
/// taken in: no action, no change.
pub proof fn law_basic_replies_taken_in(s: BasicView, p: PacketView, d: bool, fresh: Seq<u64>)
    requires
        is_reply(p),
    ensures
        basic_handle_spec(s, p, d, fresh) == (s, Seq::<ActionView>::empty()),
{
}

/// A request of a new flood id records the id and goes to every neighbour
/// in turn, one packet each: a one-hop packet to that neighbour carrying the
/// request with the drone added to its trace, under a fresh session id.
pub proof fn law_basic_new_flood(s: BasicView, p: PacketView, d: bool, fresh: Seq<u64>)
    requires
        p.pack_type matches PacketTypeView::FloodRequest(fr) && !s.flood_ids.contains(fr.flood_id),
    ensures
        ({
            let fr = p.pack_type->FloodRequest_0;
            let r = basic_handle_spec(s, p, d, fresh);
            let payload = PacketTypeView::FloodRequest(FloodRequestView {
                flood_id: fr.flood_id,
                initiator_id: fr.initiator_id,
                path_trace: fr.path_trace.push((s.id, NodeType::Drone)),
            });
            &&& r.0.flood_ids == s.flood_ids.insert(fr.flood_id)
            &&& r.0.id == s.id && r.0.neighbors == s.neighbors
            &&& r.1.len() == s.neighbors.len()
            &&& forall|i: int| 0 <= i < r.1.len() ==> #[trigger] r.1[i] == ActionView::Forward {
                to: s.neighbors[i],
                packet: PacketView {
                    pack_type: payload,
                    header: HeaderView { hop_index: 0, hops: seq![s.neighbors[i]] },
                    session_id: fresh[i],
                },
            }
        }),
{
}

/// Setting the drop rate, or a crash, leaves the `nita_basic` drone's state
/// as it is; adding (removing) a sender makes it a neighbour (not one) and
/// leaves every other node's membership, the id and the flood records as
/// they were.
pub proof fn law_basic_commands(s: BasicView, c: DroneCommand, m: NodeId)
    requires
        s.neighbors.no_duplicates(),
    ensures
        ({
            let r = basic_command_spec(s, c);
            &&& r.id == s.id
            &&& r.flood_ids == s.flood_ids
            &&& (c is SetPacketDropRate || c is Crash) ==> r == s
            &&& c matches DroneCommand::AddSender(n) ==> r.neighbors.contains(n)
                && (m != n ==> (r.neighbors.contains(m) <==> s.neighbors.contains(m)))
            &&& c matches DroneCommand::RemoveSender(n) ==> !r.neighbors.contains(n)
                && (m != n ==> (r.neighbors.contains(m) <==> s.neighbors.contains(m)))
        }),
{
    match c {
        DroneCommand::AddSender(n) => crate::laws::law_neighbor_membership(s.neighbors, n, m),
        DroneCommand::RemoveSender(n) => crate::laws::law_neighbor_membership(s.neighbors, n, m),
        _ => {},
    }
}


/// A negative acknowledgement made by the drone `sender` of `p` carries the
/// given type, the index of the fragment (0 for another payload) and the
/// session of `p`.
pub proof fn law_nack_contents(sender: NodeId, p: PacketView, t: NackType)
    ensures
        nack_of_view(sender, p, t).session_id == p.session_id,
        nack_of_view(sender, p, t).pack_type matches PacketTypeView::Nack(n) && n.nack_type == t
            && n.fragment_index == (match p.pack_type {
                PacketTypeView::MsgFragment(f) => f.fragment_index,
                _ => 0,
            }),
{
}

/// A request of a flood that the drone has seen from its initiator is
/// answered, and the state is unchanged: the flood response carries the
/// trace as received, travels back over the first `h + 2` ids of that trace
/// (`h` the hop index) in reverse with the hop index at 1, goes to the
/// second node of that route, and the controller is told it was sent.
pub proof fn law_amongus_seen_flood(s: AmongUsView, p: PacketView, d: bool)
    requires
        p.pack_type matches PacketTypeView::FloodRequest(fr) && seen_flood(s, fr),
    ensures
        ({
            let fr = p.pack_type->FloodRequest_0;
            let r = handle_packet_spec(s, p, d);
            let route = trace_ids(fr.path_trace).take(p.header.hop_index + 2int).reverse();
            let resp = PacketView {
                pack_type: PacketTypeView::FloodResponse(FloodResponseView { flood_id: fr.flood_id, path_trace: fr.path_trace }),
                header: HeaderView { hop_index: 1, hops: route },
                session_id: p.session_id,
            };
            &&& r.0 == s
            &&& only_forwards(r.1, resp)
            &&& forall|i: int| 0 <= i < r.1.len() ==> (#[trigger] r.1[i] matches ActionView::Forward { to, .. } ==> to == route[1])
            &&& r.1.last() == ActionView::Notify(DroneEventView::PacketSent(resp))
        }),
{
}

/// A new flood request with no neighbour off its extended trace is answered:
/// the flood response carries the extended trace, travels back over all of
/// its ids in reverse with the hop index at 1, and the controller is told it
/// was sent; no flood request goes out.
pub proof fn law_amongus_flood_dead_end(s: AmongUsView, p: PacketView, d: bool)
    requires
        p.pack_type matches PacketTypeView::FloodRequest(fr) && !seen_flood(s, fr),
        forall|n: NodeId| #[trigger] s.neighbors.contains(n) ==> trace_ids(extended_trace(s, p.pack_type->FloodRequest_0)).contains(n),
    ensures
        ({
            let fr = p.pack_type->FloodRequest_0;
            let r = handle_packet_spec(s, p, d);
            let trace = fr.path_trace.push((s.id, NodeType::Drone));
            let resp = PacketView {
                pack_type: PacketTypeView::FloodResponse(FloodResponseView { flood_id: fr.flood_id, path_trace: trace }),
                header: HeaderView { hop_index: 1, hops: trace_ids(trace).reverse() },
                session_id: p.session_id,
            };
            &&& only_forwards(r.1, resp)
            &&& r.1.last() == ActionView::Notify(DroneEventView::PacketSent(resp))
        }),
{
    let fr = p.pack_type->FloodRequest_0;
    let trace = extended_trace(s, fr);
    let pred = off_path(trace_ids(trace));
    let targets = flood_targets(s.neighbors, trace_ids(trace));
    s.neighbors.filter_lemma(pred);
    if targets.len() > 0 {
        s.neighbors.lemma_filter_contains_rev(pred, targets[0]);
        assert(s.neighbors.contains(targets[0]));
        assert(pred(targets[0]));
    }
}

} // verus!
