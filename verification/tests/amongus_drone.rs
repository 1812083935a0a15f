use drone_core::action::{Action, Sound};
use drone_core::amongus::{contains_pair, AmongUsDrone};
use drone_core::command::DroneCommand;
use drone_core::packet::{
    Ack, DroneEvent, FloodRequest, FloodResponse, Fragment, Nack, NackType, NodeId, NodeType,
    Packet, PacketType, SourceRoutingHeader,
};
use std::collections::HashMap;

fn header(hop_index: usize, hops: Vec<NodeId>) -> SourceRoutingHeader {
    SourceRoutingHeader { hop_index, hops }
}

fn sample_fragment() -> Fragment {
    Fragment { fragment_index: 1, total_n_fragments: 1, length: 128, data: [1; 128] }
}

fn fragment_packet(hop_index: usize, hops: Vec<NodeId>, session_id: u64) -> Packet {
    Packet { pack_type: PacketType::MsgFragment(sample_fragment()), routing_header: header(hop_index, hops), session_id }
}

fn nack_packet(fragment_index: u64, nack_type: NackType, hops: Vec<NodeId>, session_id: u64) -> Packet {
    Packet {
        pack_type: PacketType::Nack(Nack { fragment_index, nack_type }),
        routing_header: header(1, hops),
        session_id,
    }
}

fn sent(to: NodeId, packet: Packet) -> Vec<Action> {
    vec![Action::Forward { to, packet: packet.clone() }, Action::Notify(DroneEvent::PacketSent(packet))]
}

/// Delivers `packet` to the drones of a chain until it leaves them; returns
/// the node that receives it last and what it receives.
fn run_chain(drones: &mut Vec<AmongUsDrone>, packet: Packet, drop_at: Option<NodeId>) -> (NodeId, Packet) {
    let mut to = packet.routing_header.hops[packet.routing_header.hop_index];
    let mut current = packet;
    loop {
        let idx = match drones.iter().position(|d| d.id() == to) {
            Some(i) => i,
            None => return (to, current),
        };
        assert!(drones[idx].can_handle(&current));
        let dropped = drop_at == Some(to);
        let actions = drones[idx].handle_packet(current, dropped);
        let mut next = None;
        for a in actions {
            if let Action::Forward { to, packet } = a {
                next = Some((to, packet));
            }
        }
        let (t, p) = next.expect("the packet goes on");
        to = t;
        current = p;
    }
}

#[test]
fn test_fragment_forward() {
    let mut drone = AmongUsDrone::new(11, &vec![12]);
    let packet = fragment_packet(1, vec![1, 11, 12, 21], 1);
    assert!(drone.can_handle(&packet));
    let actions = drone.handle_packet(packet, false);
    let moved = fragment_packet(2, vec![1, 11, 12, 21], 1);
    let mut expected = vec![Action::PlaySound(Sound::Received), Action::PlaySound(Sound::Sent)];
    expected.extend(sent(12, moved));
    assert_eq!(actions, expected);
}

#[test]
fn test_fragment_drop() {
    let mut drone = AmongUsDrone::new(11, &vec![12, 1]);
    let packet = fragment_packet(1, vec![1, 11, 12, 21], 1);
    let actions = drone.handle_packet(packet.clone(), true);
    let nack = nack_packet(1, NackType::Dropped, vec![11, 1], 1);
    let mut expected = vec![Action::PlaySound(Sound::Received)];
    expected.extend(sent(1, nack));
    expected.push(Action::PlaySound(Sound::Dropped));
    expected.push(Action::Notify(DroneEvent::PacketDropped(packet)));
    assert_eq!(actions, expected);
}

#[test]
fn test_chain_fragment_ack() {
    let mut drones = vec![AmongUsDrone::new(11, &vec![1, 12]), AmongUsDrone::new(12, &vec![11, 21])];
    let (dest, got) = run_chain(&mut drones, fragment_packet(1, vec![1, 11, 12, 21], 1), None);
    assert_eq!(dest, 21);
    assert_eq!(got, fragment_packet(3, vec![1, 11, 12, 21], 1));
    let ack = Packet {
        pack_type: PacketType::Ack(Ack { fragment_index: 1 }),
        routing_header: header(1, vec![21, 12, 11, 1]),
        session_id: 1,
    };
    let (dest, got) = run_chain(&mut drones, ack, None);
    assert_eq!(dest, 1);
    assert_eq!(
        got,
        Packet {
            pack_type: PacketType::Ack(Ack { fragment_index: 1 }),
            routing_header: header(3, vec![21, 12, 11, 1]),
            session_id: 1,
        }
    );
}

#[test]
fn test_chain_fragment_drop() {
    let mut drones = vec![AmongUsDrone::new(11, &vec![1, 12]), AmongUsDrone::new(12, &vec![11, 21])];
    let (dest, got) = run_chain(&mut drones, fragment_packet(1, vec![1, 11, 12, 21], 1), Some(12));
    assert_eq!(dest, 1);
    assert_eq!(
        got,
        Packet {
            pack_type: PacketType::Nack(Nack { fragment_index: 1, nack_type: NackType::Dropped }),
            routing_header: header(2, vec![12, 11, 1]),
            session_id: 1,
        }
    );
}

#[test]
fn unexpected_recipient_is_answered_and_shortcut() {
    let mut drone = AmongUsDrone::new(11, &vec![1, 12]);
    let ack = Packet {
        pack_type: PacketType::Ack(Ack { fragment_index: 4 }),
        routing_header: header(1, vec![1, 13, 12]),
        session_id: 9,
    };
    let actions = drone.handle_packet(ack.clone(), false);
    let nack = nack_packet(0, NackType::UnexpectedRecipient(11), vec![11, 1], 9);
    let mut expected = vec![Action::PlaySound(Sound::Received)];
    expected.extend(sent(1, nack));
    expected.push(Action::Notify(DroneEvent::ControllerShortcut(ack)));
    assert_eq!(actions, expected);
}

#[test]
fn unexpected_recipient_at_first_hop_sends_nothing_back() {
    let mut drone = AmongUsDrone::new(11, &vec![1]);
    let packet = fragment_packet(0, vec![5, 11], 3);
    assert!(drone.can_handle(&packet));
    let actions = drone.handle_packet(packet, false);
    assert_eq!(actions, vec![Action::PlaySound(Sound::Received)]);
}

#[test]
fn destination_is_drone() {
    let mut drone = AmongUsDrone::new(11, &vec![1]);
    let packet = fragment_packet(1, vec![1, 11], 2);
    assert!(drone.can_handle(&packet));
    let actions = drone.handle_packet(packet, false);
    let nack = nack_packet(1, NackType::DestinationIsDrone, vec![11, 1], 2);
    let mut expected = vec![Action::PlaySound(Sound::Received)];
    expected.extend(sent(1, nack));
    assert_eq!(actions, expected);
}

#[test]
fn destination_at_first_hop_cannot_be_handled() {
    let drone = AmongUsDrone::new(11, &vec![1]);
    assert!(!drone.can_handle(&fragment_packet(0, vec![11], 2)));
    assert!(!drone.can_handle(&fragment_packet(5, vec![1, 11], 2)));
}

#[test]
fn error_in_routing_reports_missing_neighbor() {
    let mut drone = AmongUsDrone::new(11, &vec![1]);
    let packet = fragment_packet(1, vec![1, 11, 12], 2);
    let actions = drone.handle_packet(packet, false);
    let nack = nack_packet(1, NackType::ErrorInRouting(12), vec![11, 1], 2);
    let mut expected = vec![Action::PlaySound(Sound::Received)];
    expected.extend(sent(1, nack));
    assert_eq!(actions, expected);
}

#[test]
fn nack_to_a_node_without_channel_is_only_reported() {
    // The previous hop is not a neighbour: the controller still hears of it.
    let mut drone = AmongUsDrone::new(11, &vec![]);
    let packet = fragment_packet(1, vec![1, 11, 12], 2);
    let actions = drone.handle_packet(packet, false);
    let nack = nack_packet(1, NackType::ErrorInRouting(12), vec![11, 1], 2);
    assert_eq!(actions, vec![Action::PlaySound(Sound::Received), Action::Notify(DroneEvent::PacketSent(nack))]);
}

#[test]
fn other_packets_are_forwarded() {
    let mut drone = AmongUsDrone::new(11, &vec![12]);
    let resp = Packet {
        pack_type: PacketType::FloodResponse(FloodResponse { flood_id: 3, path_trace: vec![(1, NodeType::Client)] }),
        routing_header: header(1, vec![1, 11, 12]),
        session_id: 8,
    };
    let actions = drone.handle_packet(resp.clone(), false);
    let mut moved = resp.clone();
    moved.routing_header.hop_index = 2;
    let mut expected = vec![Action::PlaySound(Sound::Received)];
    expected.extend(sent(12, moved));
    assert_eq!(actions, expected);
}

fn flood(flood_id: u64, initiator_id: NodeId, trace: Vec<(NodeId, NodeType)>) -> Packet {
    Packet {
        pack_type: PacketType::FloodRequest(FloodRequest { flood_id, initiator_id, path_trace: trace }),
        routing_header: header(0, vec![1, 11, 12]),
        session_id: 5,
    }
}

#[test]
fn new_flood_is_passed_to_neighbors_off_path() {
    let mut drone = AmongUsDrone::new(11, &vec![1, 12, 13]);
    let packet = flood(7, 1, vec![(1, NodeType::Client)]);
    assert!(drone.can_handle(&packet));
    let actions = drone.handle_packet(packet, false);
    let trace = vec![(1, NodeType::Client), (11, NodeType::Drone)];
    let fwd = Packet {
        pack_type: PacketType::FloodRequest(FloodRequest { flood_id: 7, initiator_id: 1, path_trace: trace }),
        routing_header: header(0, vec![1, 11, 12]),
        session_id: 5,
    };
    assert_eq!(
        actions,
        vec![
            Action::PlaySound(Sound::Received),
            Action::Forward { to: 12, packet: fwd.clone() },
            Action::Forward { to: 13, packet: fwd },
        ]
    );
}

#[test]
fn seen_flood_is_answered_with_a_response() {
    let mut drone = AmongUsDrone::new(11, &vec![1, 12]);
    let first = drone.handle_packet(flood(7, 1, vec![(1, NodeType::Client)]), false);
    assert_eq!(first.len(), 2);
    // The flood comes back through drone 12.
    let again = flood(7, 1, vec![(1, NodeType::Client), (12, NodeType::Drone)]);
    assert!(drone.can_handle(&again));
    let actions = drone.handle_packet(again, false);
    // The response carries the trace as received and is routed back over
    // the first two ids of that trace (hop index 0, plus two), reversed:
    // from 12 to 1, so it goes to 1.
    let resp = Packet {
        pack_type: PacketType::FloodResponse(FloodResponse {
            flood_id: 7,
            path_trace: vec![(1, NodeType::Client), (12, NodeType::Drone)],
        }),
        routing_header: header(1, vec![12, 1]),
        session_id: 5,
    };
    let mut expected = vec![Action::PlaySound(Sound::Received)];
    expected.extend(sent(1, resp));
    assert_eq!(actions, expected);
}

#[test]
fn same_flood_id_from_another_initiator_is_new() {
    let mut drone = AmongUsDrone::new(11, &vec![1, 12]);
    drone.handle_packet(flood(7, 1, vec![(1, NodeType::Client)]), false);
    let other = flood(7, 2, vec![(2, NodeType::Client)]);
    let actions = drone.handle_packet(other, false);
    assert_eq!(actions.len(), 3);
}

#[test]
fn flood_response_retraces_the_whole_trace() {
    // No neighbour, hop index 0, three entries in the trace: the response
    // goes back over all four nodes of the extended trace.
    let mut drone = AmongUsDrone::new(11, &vec![]);
    let trace = vec![(1, NodeType::Client), (2, NodeType::Drone), (3, NodeType::Drone)];
    let packet = flood(8, 1, trace.clone());
    assert!(drone.can_handle(&packet));
    let actions = drone.handle_packet(packet, false);
    let mut extended = trace;
    extended.push((11, NodeType::Drone));
    let resp = Packet {
        pack_type: PacketType::FloodResponse(FloodResponse { flood_id: 8, path_trace: extended }),
        routing_header: header(1, vec![11, 3, 2, 1]),
        session_id: 5,
    };
    assert_eq!(actions, vec![Action::PlaySound(Sound::Received), Action::Notify(DroneEvent::PacketSent(resp))]);
}

#[test]
fn flood_with_no_neighbor_off_path_is_answered() {
    let mut drone = AmongUsDrone::new(11, &vec![1]);
    let packet = flood(7, 1, vec![(1, NodeType::Client)]);
    assert!(drone.can_handle(&packet));
    let actions = drone.handle_packet(packet, false);
    let trace = vec![(1, NodeType::Client), (11, NodeType::Drone)];
    let resp = Packet {
        pack_type: PacketType::FloodResponse(FloodResponse { flood_id: 7, path_trace: trace }),
        routing_header: header(1, vec![11, 1]),
        session_id: 5,
    };
    let mut expected = vec![Action::PlaySound(Sound::Received)];
    expected.extend(sent(1, resp));
    assert_eq!(actions, expected);
}

#[test]
fn seen_flood_with_short_trace_cannot_be_handled() {
    let mut drone = AmongUsDrone::new(11, &vec![1, 12]);
    drone.handle_packet(flood(7, 1, vec![(1, NodeType::Client)]), false);
    // At hop index 0 the response retraces two ids of the trace.
    assert!(drone.can_handle(&flood(7, 1, vec![(1, NodeType::Client), (12, NodeType::Drone)])));
    assert!(!drone.can_handle(&flood(7, 1, vec![(1, NodeType::Client)])));
    assert!(!drone.can_handle(&flood(7, 1, vec![])));
}

#[test]
fn commands_change_the_neighbors() {
    let mut drone = AmongUsDrone::new(11, &vec![1]);
    drone.handle_command(DroneCommand::AddSender(12));
    drone.handle_command(DroneCommand::AddSender(12));
    let packet = fragment_packet(1, vec![1, 11, 12], 2);
    let actions = drone.handle_packet(packet, false);
    assert!(matches!(actions[2], Action::Forward { to: 12, .. }));
    drone.handle_command(DroneCommand::RemoveSender(12));
    drone.handle_command(DroneCommand::SetPacketDropRate);
    let packet = fragment_packet(1, vec![1, 11, 12], 2);
    let actions = drone.handle_packet(packet, false);
    assert_eq!(actions[1], Action::Forward { to: 1, packet: nack_packet(1, NackType::ErrorInRouting(12), vec![11, 1], 2) });
}

#[test]
fn crash_stops_and_drops_neighbors() {
    let mut drone = AmongUsDrone::new(11, &vec![1, 12]);
    let (actions, stop) = drone.step_command(DroneCommand::AddSender(13));
    assert!(actions.is_empty());
    assert!(!stop);
    let (actions, stop) = drone.step_command(DroneCommand::Crash);
    assert_eq!(actions, vec![Action::PlaySound(Sound::Crash)]);
    assert!(stop);
    // Nothing goes out on a channel any more.
    let ack = Packet {
        pack_type: PacketType::Ack(Ack { fragment_index: 0 }),
        routing_header: header(1, vec![21, 11, 1]),
        session_id: 4,
    };
    let actions = drone.process_crashing_message(ack);
    let moved = Packet {
        pack_type: PacketType::Ack(Ack { fragment_index: 0 }),
        routing_header: header(2, vec![21, 11, 1]),
        session_id: 4,
    };
    assert_eq!(actions, vec![Action::Notify(DroneEvent::PacketSent(moved))]);
}

#[test]
fn crashing_drone_handles_each_type() {
    let mut drone = AmongUsDrone::new(11, &vec![1, 12]);
    assert!(drone.process_crashing_message(flood(7, 1, vec![])).is_empty());
    let actions = drone.process_crashing_message(fragment_packet(1, vec![1, 11, 12], 6));
    assert_eq!(actions, sent(1, nack_packet(1, NackType::ErrorInRouting(11), vec![11, 1], 6)));
    let ack = Packet {
        pack_type: PacketType::Ack(Ack { fragment_index: 0 }),
        routing_header: header(2, vec![21, 11, 1]),
        session_id: 4,
    };
    assert!(drone.process_crashing_message(ack).is_empty());
    drone.enter_crashing_behavior();
    let actions = drone.process_crashing_message(fragment_packet(1, vec![1, 11, 12], 6));
    assert_eq!(actions, vec![Action::Notify(DroneEvent::PacketSent(nack_packet(1, NackType::ErrorInRouting(11), vec![11, 1], 6)))]);
}

#[test]
fn create_nack_packet_reverses_the_prefix() {
    let drone = AmongUsDrone::new(3, &vec![]);
    let nack = drone.create_nack_packet(&vec![1, 2, 3, 4], 3, NackType::Dropped, 10, 5);
    assert_eq!(nack, nack_packet(5, NackType::Dropped, vec![3, 2, 1], 10));
}

#[test]
fn create_nack_packet_does_not_add_the_drone() {
    let drone = AmongUsDrone::new(9, &vec![]);
    let nack = drone.create_nack_packet(&vec![1, 2, 3, 4], 2, NackType::Dropped, 10, 0);
    assert_eq!(nack, nack_packet(0, NackType::Dropped, vec![2, 1], 10));
}

#[test]
fn create_nack_packet_with_no_hops_has_an_empty_route() {
    let drone = AmongUsDrone::new(9, &vec![]);
    let nack = drone.create_nack_packet(&vec![1, 2], 0, NackType::DestinationIsDrone, 4, 0);
    assert_eq!(nack, nack_packet(0, NackType::DestinationIsDrone, vec![], 4));
}

#[test]
fn contains_pair_checks_key_and_value() {
    let mut map: HashMap<u64, u8> = HashMap::new();
    map.insert(5, 1);
    assert!(contains_pair(&map, &5, &1));
    assert!(!contains_pair(&map, &5, &2));
    assert!(!contains_pair(&map, &6, &1));
}

#[test]
fn contains_pair_after_insert() {
    let mut map: HashMap<u64, NodeId> = HashMap::new();
    map.insert(7, 1);
    map.insert(8, 3);
    map.insert(7, 2);
    assert!(contains_pair(&map, &7, &2));
    assert!(!contains_pair(&map, &7, &1));
    assert!(contains_pair(&map, &8, &3));
}

#[test]
fn duplicate_neighbors_are_listed_once() {
    let mut drone = AmongUsDrone::new(11, &vec![12, 12]);
    drone.handle_command(DroneCommand::RemoveSender(12));
    let actions = drone.handle_packet(fragment_packet(1, vec![1, 11, 12], 2), false);
    assert_eq!(actions[1], Action::Notify(DroneEvent::PacketSent(nack_packet(1, NackType::ErrorInRouting(12), vec![11, 1], 2))));
}

#[test]
fn flood_is_remembered_across_later_calls() {
    let mut drone = AmongUsDrone::new(11, &vec![1, 12]);
    drone.handle_packet(flood(7, 1, vec![(1, NodeType::Client)]), false);
    drone.handle_command(DroneCommand::AddSender(13));
    drone.handle_packet(fragment_packet(1, vec![1, 11, 12], 2), false);
    drone.handle_packet(flood(8, 1, vec![(1, NodeType::Client)]), false);
    drone.handle_command(DroneCommand::RemoveSender(12));
    let actions = drone.handle_packet(flood(7, 1, vec![(1, NodeType::Client), (13, NodeType::Drone)]), false);
    assert!(actions.iter().all(|a| !matches!(a, Action::Forward { packet: Packet { pack_type: PacketType::FloodRequest(_), .. }, .. })));
    assert!(matches!(&actions[1], Action::Forward { to: 1, packet } if matches!(packet.pack_type, PacketType::FloodResponse(_))));
}
