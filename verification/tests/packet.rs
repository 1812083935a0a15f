use drone_core::packet::{
    copy_hops, copy_trace, trace_node_ids, DroneEvent, FloodRequest, FloodResponse, Nack,
    NackType, NodeType, Packet, PacketType, SourceRoutingHeader,
};

#[test]
fn constructors_fill_the_fields() {
    let header = SourceRoutingHeader { hop_index: 1, hops: vec![3, 2, 1] };
    let nack = Nack { fragment_index: 0, nack_type: NackType::Dropped };
    let p = Packet::new_nack(header.clone(), 77, nack);
    assert_eq!(p, Packet { pack_type: PacketType::Nack(nack), routing_header: header.clone(), session_id: 77 });
    let resp = FloodResponse { flood_id: 4, path_trace: vec![(1, NodeType::Client), (2, NodeType::Drone)] };
    let p = Packet::new_flood_response(header.clone(), 78, resp.clone());
    assert_eq!(p, Packet { pack_type: PacketType::FloodResponse(resp), routing_header: header, session_id: 78 });
}

#[test]
fn clones_and_copies_are_equal() {
    let p = Packet {
        pack_type: PacketType::FloodRequest(FloodRequest {
            flood_id: 1,
            initiator_id: 9,
            path_trace: vec![(9, NodeType::Server), (4, NodeType::Drone)],
        }),
        routing_header: SourceRoutingHeader { hop_index: 0, hops: vec![] },
        session_id: 2,
    };
    assert_eq!(p.clone(), p);
    let e = DroneEvent::ControllerShortcut(p.clone());
    assert_eq!(e.clone(), e);
    assert_eq!(copy_hops(&vec![5, 6]), vec![5, 6]);
    let trace = vec![(9, NodeType::Server), (4, NodeType::Drone)];
    assert_eq!(copy_trace(&trace), trace);
    assert_eq!(trace_node_ids(&trace), vec![9, 4]);
}
