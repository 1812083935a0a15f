use drone_core::packet::{Nack, NackType, Packet, PacketType, SourceRoutingHeader};
use drone_core::routing::{back_route_header, nack_of, reverse_hops, reverse_routing_header};

#[test]
fn reverse_routing_header_takes_the_prefix() {
    let h = reverse_routing_header(&vec![1, 2, 3, 4], 2);
    assert_eq!(h, SourceRoutingHeader { hop_index: 1, hops: vec![2, 1] });
    let h = reverse_routing_header(&vec![1, 2, 3, 4], 0);
    assert_eq!(h, SourceRoutingHeader { hop_index: 1, hops: vec![] });
    // Reversing twice gives the prefix back.
    let twice = reverse_routing_header(&reverse_routing_header(&vec![1, 2, 3, 4], 3).hops, 3);
    assert_eq!(twice.hops, vec![1, 2, 3]);
}

#[test]
fn next_hop_is_after_the_current_one() {
    assert_eq!(SourceRoutingHeader { hop_index: 1, hops: vec![1, 2, 3] }.next_hop(), Some(3));
    assert_eq!(SourceRoutingHeader { hop_index: 2, hops: vec![1, 2, 3] }.next_hop(), None);
    assert_eq!(SourceRoutingHeader { hop_index: usize::MAX, hops: vec![1] }.next_hop(), None);
}

#[test]
fn nack_goes_back_from_the_sender() {
    assert_eq!(reverse_hops(&vec![1, 2, 3]), vec![3, 2, 1]);
    assert_eq!(back_route_header(7, &vec![1, 2, 3], 2), SourceRoutingHeader { hop_index: 1, hops: vec![7, 2, 1] });
    assert_eq!(back_route_header(7, &vec![1, 2, 3], 9), SourceRoutingHeader { hop_index: 1, hops: vec![7, 3, 2, 1] });
    assert_eq!(back_route_header(7, &vec![1, 2, 3], 0), SourceRoutingHeader { hop_index: 1, hops: vec![7] });
    let p = Packet {
        pack_type: PacketType::Nack(Nack { fragment_index: 3, nack_type: NackType::Dropped }),
        routing_header: SourceRoutingHeader { hop_index: 2, hops: vec![1, 2, 3] },
        session_id: 6,
    };
    let n = nack_of(3, &p, NackType::DestinationIsDrone);
    assert_eq!(
        n,
        Packet {
            pack_type: PacketType::Nack(Nack { fragment_index: 0, nack_type: NackType::DestinationIsDrone }),
            routing_header: SourceRoutingHeader { hop_index: 1, hops: vec![3, 2, 1] },
            session_id: 6,
        }
    );
}
