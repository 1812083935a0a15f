use drone_core::action::{Action, Sound};
use drone_core::command::DroneCommand;
use drone_core::packet::{
    Ack, FloodRequest, Fragment, Nack, NackType, NodeId, NodeType, Packet, PacketType,
    SourceRoutingHeader,
};
use drone_core::pie::MyDrone;

fn header(hop_index: usize, hops: Vec<NodeId>) -> SourceRoutingHeader {
    SourceRoutingHeader { hop_index, hops }
}

fn fragment_packet(hop_index: usize, hops: Vec<NodeId>) -> Packet {
    let fragment = Fragment { fragment_index: 4, total_n_fragments: 9, length: 3, data: [7; 128] };
    Packet { pack_type: PacketType::MsgFragment(fragment), routing_header: header(hop_index, hops), session_id: 42 }
}

#[test]
fn pie_fragment_is_passed_one_hop_on() {
    let drone = MyDrone::new(2, &vec![1, 3]);
    let actions = drone.handle_packet(fragment_packet(1, vec![1, 2, 3]), false);
    assert_eq!(
        actions,
        vec![Action::PlaySound(Sound::Success), Action::Forward { to: 3, packet: fragment_packet(2, vec![1, 2, 3]) }]
    );
}

#[test]
fn pie_dropped_fragment_is_nacked_back_to_the_previous_hop() {
    let drone = MyDrone::new(2, &vec![1, 3]);
    let actions = drone.handle_packet(fragment_packet(1, vec![1, 2, 3]), true);
    let nack = Packet {
        pack_type: PacketType::Nack(Nack { fragment_index: 4, nack_type: NackType::Dropped }),
        routing_header: header(1, vec![2, 1]),
        session_id: 42,
    };
    assert_eq!(actions, vec![Action::PlaySound(Sound::Fail), Action::Forward { to: 1, packet: nack }]);
    // At the first hop there is no hop to go back to.
    let actions = drone.handle_packet(fragment_packet(0, vec![2, 3]), true);
    assert_eq!(actions, vec![Action::PlaySound(Sound::Fail)]);
}

#[test]
fn pie_unknown_next_hop_is_an_error_in_routing() {
    // On [1, 11, 12] at node 11 with no channel to 12, the negative
    // acknowledgement names 12 and goes back to node 1.
    let drone = MyDrone::new(11, &vec![1]);
    let actions = drone.handle_packet(fragment_packet(1, vec![1, 11, 12]), false);
    let nack = Packet {
        pack_type: PacketType::Nack(Nack { fragment_index: 4, nack_type: NackType::ErrorInRouting(12) }),
        routing_header: header(1, vec![11, 1]),
        session_id: 42,
    };
    assert_eq!(actions, vec![Action::PlaySound(Sound::Success), Action::Forward { to: 1, packet: nack }]);
}

#[test]
fn pie_packet_at_end_of_route_goes_nowhere() {
    let drone = MyDrone::new(2, &vec![1, 3]);
    let ack = Packet { pack_type: PacketType::Ack(Ack { fragment_index: 0 }), routing_header: header(1, vec![1, 2]), session_id: 1 };
    assert_eq!(drone.handle_packet(ack, false), vec![Action::PlaySound(Sound::Success)]);
}

#[test]
fn pie_nack_is_forwarded_with_fail_sound() {
    let drone = MyDrone::new(2, &vec![1, 3]);
    let nack = Packet {
        pack_type: PacketType::Nack(Nack { fragment_index: 0, nack_type: NackType::Dropped }),
        routing_header: header(1, vec![3, 2, 1]),
        session_id: 1,
    };
    let mut moved = nack.clone();
    moved.routing_header.hop_index = 2;
    assert_eq!(
        drone.handle_packet(nack, false),
        vec![Action::PlaySound(Sound::Fail), Action::Forward { to: 1, packet: moved }]
    );
}

#[test]
fn pie_flood_goes_to_all_but_the_previous_hop() {
    let drone = MyDrone::new(2, &vec![1, 3, 4]);
    let flood = Packet {
        pack_type: PacketType::FloodRequest(FloodRequest { flood_id: 1, initiator_id: 1, path_trace: vec![(1, NodeType::Client)] }),
        routing_header: header(1, vec![1, 2]),
        session_id: 5,
    };
    assert_eq!(
        drone.handle_packet(flood.clone(), false),
        vec![
            Action::PlaySound(Sound::Success),
            Action::Forward { to: 3, packet: flood.clone() },
            Action::Forward { to: 4, packet: flood.clone() },
        ]
    );
    // A previous hop beyond the route excludes nobody.
    let mut far = flood.clone();
    far.routing_header.hop_index = 5;
    assert_eq!(drone.process_flood_request(far.clone()).len(), 3);
}

#[test]
fn pie_commands() {
    let mut drone = MyDrone::new(2, &vec![1]);
    assert!(!drone.step_command(DroneCommand::AddSender(3)));
    assert!(!drone.step_command(DroneCommand::SetPacketDropRate));
    let actions = drone.handle_packet(fragment_packet(1, vec![1, 2, 3]), false);
    assert_eq!(actions[1], Action::Forward { to: 3, packet: fragment_packet(2, vec![1, 2, 3]) });
    drone.handle_command(DroneCommand::RemoveSender(3));
    // Without a channel to 3 the fragment comes back to 1 as an error.
    let actions = drone.handle_packet(fragment_packet(1, vec![1, 2, 3]), false);
    assert!(matches!(&actions[1], Action::Forward { to: 1, packet } if matches!(packet.pack_type, PacketType::Nack(_))));
    assert!(drone.step_command(DroneCommand::Crash));
}
