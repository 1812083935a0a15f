use drone_core::action::{Action, Sound};
use drone_core::command::DroneCommand;
use drone_core::nita::MyDrone;
use drone_core::packet::{
    Ack, DroneEvent, FloodRequest, FloodResponse, Fragment, Nack, NackType, NodeId, NodeType,
    Packet, PacketType, SourceRoutingHeader,
};

fn header(hop_index: usize, hops: Vec<NodeId>) -> SourceRoutingHeader {
    SourceRoutingHeader { hop_index, hops }
}

fn fragment_packet(hop_index: usize, hops: Vec<NodeId>) -> Packet {
    let fragment = Fragment { fragment_index: 2, total_n_fragments: 3, length: 1, data: [0; 128] };
    Packet { pack_type: PacketType::MsgFragment(fragment), routing_header: header(hop_index, hops), session_id: 11 }
}

fn reported_nack(fragment_index: u64, nack_type: NackType, hops: Vec<NodeId>, session_id: u64) -> Action {
    Action::Notify(DroneEvent::PacketDropped(Packet {
        pack_type: PacketType::Nack(Nack { fragment_index, nack_type }),
        routing_header: header(1, hops),
        session_id,
    }))
}

#[test]
fn nita_wrong_recipient_is_reported() {
    let drone = MyDrone::new(5, &vec![6]);
    let (ok, actions) = drone.verify_packet(&fragment_packet(1, vec![1, 4, 6]));
    assert!(!ok);
    assert_eq!(actions, vec![reported_nack(2, NackType::UnexpectedRecipient(5), vec![5, 1], 11)]);
    let (ok, _) = drone.verify_packet(&fragment_packet(7, vec![1, 5, 6]));
    assert!(!ok);
}

#[test]
fn nita_destination_is_drone_is_reported() {
    let mut drone = MyDrone::new(5, &vec![6]);
    let actions = drone.step_packet(fragment_packet(1, vec![1, 5]), false);
    assert_eq!(actions, vec![reported_nack(2, NackType::DestinationIsDrone, vec![5, 1], 11)]);
}

#[test]
fn nita_fragment_is_sent_on_unchanged() {
    let mut drone = MyDrone::new(5, &vec![6]);
    let packet = fragment_packet(1, vec![1, 5, 6]);
    let actions = drone.step_packet(packet.clone(), false);
    assert_eq!(actions, vec![Action::Forward { to: 6, packet }, Action::PlaySound(Sound::Received)]);
    let actions = drone.step_packet(fragment_packet(1, vec![1, 5, 6]), true);
    assert_eq!(actions, vec![Action::PlaySound(Sound::Received)]);
    let actions = drone.step_packet(fragment_packet(1, vec![1, 5, 7]), false);
    assert_eq!(actions, vec![Action::PlaySound(Sound::Received)]);
}

#[test]
fn nita_acks_and_nacks_are_only_logged() {
    let mut drone = MyDrone::new(5, &vec![6]);
    let ack = Packet { pack_type: PacketType::Ack(Ack { fragment_index: 0 }), routing_header: header(1, vec![1, 5, 6]), session_id: 1 };
    assert_eq!(drone.step_packet(ack, false), vec![Action::PlaySound(Sound::Received)]);
}

fn flood(flood_id: u64) -> Packet {
    Packet {
        pack_type: PacketType::FloodRequest(FloodRequest { flood_id, initiator_id: 1, path_trace: vec![(1, NodeType::Client)] }),
        routing_header: header(1, vec![1, 5, 6]),
        session_id: 3,
    }
}

#[test]
fn nita_flood_is_relayed_to_every_neighbor_once() {
    let mut drone = MyDrone::new(5, &vec![6, 7]);
    let actions = drone.step_packet(flood(9), false);
    assert_eq!(actions.len(), 3);
    let trace = vec![(1, NodeType::Client), (5, NodeType::Drone)];
    for (i, to) in [6u8, 7u8].iter().enumerate() {
        match &actions[i] {
            Action::Forward { to: t, packet } => {
                assert_eq!(t, to);
                assert_eq!(packet.routing_header, header(0, vec![*to]));
                assert_eq!(
                    packet.pack_type,
                    PacketType::FloodRequest(FloodRequest { flood_id: 9, initiator_id: 1, path_trace: trace.clone() })
                );
            },
            other => panic!("unexpected action {:?}", other),
        }
    }
    assert_eq!(actions[2], Action::PlaySound(Sound::Received));
    let again = drone.step_packet(flood(9), false);
    assert_eq!(
        again,
        vec![reported_nack(0, NackType::ErrorInRouting(1), vec![5, 1], 3), Action::PlaySound(Sound::Received)]
    );
}

#[test]
fn nita_flood_without_neighbors_is_answered_nowhere() {
    let mut drone = MyDrone::new(5, &vec![]);
    assert_eq!(drone.handle_packet(flood(9), false), vec![]);
}

#[test]
fn nita_flood_response_is_passed_back_along_the_trace() {
    let mut drone = MyDrone::new(5, &vec![4]);
    let resp = Packet {
        pack_type: PacketType::FloodResponse(FloodResponse {
            flood_id: 9,
            path_trace: vec![(1, NodeType::Client), (4, NodeType::Drone)],
        }),
        routing_header: header(1, vec![6, 5, 4]),
        session_id: 3,
    };
    let actions = drone.handle_packet(resp, false);
    assert_eq!(actions.len(), 1);
    match &actions[0] {
        Action::Forward { to, packet } => {
            assert_eq!(*to, 4);
            assert_eq!(packet.routing_header, header(0, vec![4]));
            assert_eq!(
                packet.pack_type,
                PacketType::FloodResponse(FloodResponse { flood_id: 9, path_trace: vec![(1, NodeType::Client)] })
            );
        },
        other => panic!("unexpected action {:?}", other),
    }
    let empty = Packet {
        pack_type: PacketType::FloodResponse(FloodResponse { flood_id: 9, path_trace: vec![] }),
        routing_header: header(1, vec![6, 5, 4]),
        session_id: 3,
    };
    assert_eq!(drone.handle_packet(empty, false), vec![]);
}

#[test]
fn nita_send_packet_uses_first_hop() {
    let drone = MyDrone::new(5, &vec![4]);
    let p = fragment_packet(0, vec![4, 8]);
    assert_eq!(drone.send_packet(p.clone()), vec![Action::Forward { to: 4, packet: p }]);
    assert_eq!(drone.send_packet(fragment_packet(0, vec![8, 4])), vec![]);
    assert_eq!(drone.send_packet(fragment_packet(0, vec![])), vec![]);
}

#[test]
fn nita_commands() {
    let mut drone = MyDrone::new(5, &vec![]);
    drone.handle_command(DroneCommand::AddSender(6));
    drone.handle_command(DroneCommand::Crash);
    assert_eq!(drone.step_packet(fragment_packet(1, vec![1, 5, 6]), false).len(), 2);
    drone.handle_command(DroneCommand::RemoveSender(6));
    assert_eq!(drone.step_packet(fragment_packet(1, vec![1, 5, 6]), false).len(), 1);
}

#[test]
fn nita_flood_is_remembered_across_later_calls() {
    let mut drone = MyDrone::new(5, &vec![6, 7]);
    drone.step_packet(flood(9), false);
    drone.handle_command(DroneCommand::AddSender(8));
    drone.step_packet(flood(10), false);
    drone.step_packet(fragment_packet(1, vec![1, 5, 6]), false);
    drone.handle_command(DroneCommand::RemoveSender(6));
    drone.handle_command(DroneCommand::Crash);
    let again = drone.step_packet(flood(9), false);
    assert_eq!(
        again,
        vec![reported_nack(0, NackType::ErrorInRouting(1), vec![5, 1], 3), Action::PlaySound(Sound::Received)]
    );
}
