use drone_core::action::Action;
use drone_core::command::DroneCommand;
use drone_core::nita_basic::MyDrone;
use drone_core::packet::{
    Ack, DroneEvent, FloodRequest, Fragment, NodeId, NodeType, Packet, PacketType,
    SourceRoutingHeader,
};

fn header(hop_index: usize, hops: Vec<NodeId>) -> SourceRoutingHeader {
    SourceRoutingHeader { hop_index, hops }
}

fn fragment_packet(hop_index: usize, hops: Vec<NodeId>) -> Packet {
    let fragment = Fragment { fragment_index: 0, total_n_fragments: 1, length: 2, data: [9; 128] };
    Packet { pack_type: PacketType::MsgFragment(fragment), routing_header: header(hop_index, hops), session_id: 3 }
}

#[test]
fn basic_fragment_goes_to_the_named_hop() {
    let mut drone = MyDrone::new(5, &vec![6]);
    let p = fragment_packet(1, vec![5, 6]);
    assert!(drone.can_handle(&p, false));
    assert_eq!(drone.handle_packet(p.clone(), false), vec![Action::Forward { to: 6, packet: p }]);
    assert_eq!(drone.handle_packet(fragment_packet(0, vec![5, 6]), false), vec![]);
    assert!(!drone.can_handle(&fragment_packet(2, vec![5, 6]), false));
}

#[test]
fn basic_drop_is_reported() {
    let mut drone = MyDrone::new(5, &vec![6]);
    let p = fragment_packet(7, vec![5, 6]);
    assert!(drone.can_handle(&p, true));
    assert_eq!(drone.handle_packet(p.clone(), true), vec![Action::Notify(DroneEvent::PacketDropped(p))]);
}

#[test]
fn basic_flood_goes_to_every_neighbor_once() {
    let mut drone = MyDrone::new(5, &vec![6, 1]);
    let flood = Packet {
        pack_type: PacketType::FloodRequest(FloodRequest { flood_id: 2, initiator_id: 1, path_trace: vec![(1, NodeType::Client)] }),
        routing_header: header(0, vec![]),
        session_id: 3,
    };
    let actions = drone.handle_packet(flood.clone(), false);
    assert_eq!(actions.len(), 2);
    let trace = vec![(1, NodeType::Client), (5, NodeType::Drone)];
    for (i, to) in [6u8, 1u8].iter().enumerate() {
        match &actions[i] {
            Action::Forward { to: t, packet } => {
                assert_eq!(t, to);
                assert_eq!(packet.routing_header, header(0, vec![*to]));
                assert_eq!(
                    packet.pack_type,
                    PacketType::FloodRequest(FloodRequest { flood_id: 2, initiator_id: 1, path_trace: trace.clone() })
                );
            },
            other => panic!("unexpected action {:?}", other),
        }
    }
    assert_eq!(drone.handle_packet(flood, false), vec![]);
}

#[test]
fn basic_acks_are_only_logged_and_commands_apply() {
    let mut drone = MyDrone::new(5, &vec![]);
    let ack = Packet { pack_type: PacketType::Ack(Ack { fragment_index: 0 }), routing_header: header(0, vec![6]), session_id: 1 };
    assert_eq!(drone.handle_packet(ack, false), vec![]);
    drone.handle_command(DroneCommand::AddSender(6));
    drone.handle_command(DroneCommand::SetPacketDropRate);
    let p = fragment_packet(1, vec![5, 6]);
    assert_eq!(drone.handle_packet(p.clone(), false).len(), 1);
    drone.handle_command(DroneCommand::RemoveSender(6));
    drone.handle_command(DroneCommand::Crash);
    assert_eq!(drone.handle_packet(p, false).len(), 0);
}

#[test]
fn basic_flood_is_remembered_across_later_calls() {
    let mut drone = MyDrone::new(5, &vec![6]);
    let flood = |flood_id: u64| Packet {
        pack_type: PacketType::FloodRequest(FloodRequest { flood_id, initiator_id: 1, path_trace: vec![(1, NodeType::Client)] }),
        routing_header: header(0, vec![]),
        session_id: 3,
    };
    assert_eq!(drone.handle_packet(flood(2), false).len(), 1);
    drone.handle_command(DroneCommand::AddSender(7));
    assert_eq!(drone.handle_packet(flood(4), false).len(), 2);
    drone.handle_packet(fragment_packet(1, vec![5, 6]), false);
    drone.handle_command(DroneCommand::RemoveSender(6));
    assert_eq!(drone.handle_packet(flood(2), false), vec![]);
}
