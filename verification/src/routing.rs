//! Operations on source routing headers.
use vstd::prelude::*;
use crate::packet::{NodeId, HeaderView, SourceRoutingHeader, Nack, NackType, Packet, PacketType, PacketView, PacketTypeView};

verus! {

/// The header that sends a packet back along the first `k` hops of `hops`:
/// those hops in reverse order, with the hop index at the first hop after
/// the sender.
pub open spec fn reversed_header(hops: Seq<NodeId>, k: int) -> HeaderView {
    HeaderView { hop_index: 1, hops: hops.take(k).reverse() }
}

/// Builds the routing header that retraces the first `new_hop_index` hops of
/// `hops` backwards.
pub fn reverse_routing_header(hops: &Vec<NodeId>, new_hop_index: usize) -> (r: SourceRoutingHeader)
    requires
        new_hop_index <= hops.len(),
    ensures
        r@ == reversed_header(hops@, new_hop_index as int),
{
    let mut rev: Vec<NodeId> = Vec::new();
    let mut i: usize = new_hop_index;
    while i > 0
        invariant
            i <= new_hop_index <= hops.len(),
            rev@.len() == new_hop_index - i,
            forall|j: int| 0 <= j < rev@.len() ==> rev@[j] == hops@[new_hop_index - 1 - j],
        decreases i,
    {
        i = i - 1;
        rev.push(hops[i]);
    }
    assert(rev@ =~= hops@.take(new_hop_index as int).reverse());
    SourceRoutingHeader { hops: rev, hop_index: 1 }
}

/// The hops in reverse order.
pub fn reverse_hops(hops: &Vec<NodeId>) -> (r: Vec<NodeId>)
    ensures
        r@ == hops@.reverse(),
{
    let header = reverse_routing_header(hops, hops.len());
    assert(hops@.take(hops@.len() as int) =~= hops@);
    header.hops
}

/// The hop after the current one, if the route has one.
pub open spec fn spec_next_hop(h: HeaderView) -> Option<NodeId> {
    if h.hop_index + 1 < h.hops.len() {
        Some(h.hops[h.hop_index + 1int])
    } else {
        None
    }
}

impl SourceRoutingHeader {
    /// The hop after the current one, if the route has one.
    pub fn next_hop(&self) -> (r: Option<NodeId>)
        ensures
            r == spec_next_hop(self@),
    {
        if self.hop_index < self.hops.len() && self.hops.len() - self.hop_index > 1 {
            Some(self.hops[self.hop_index + 1])
        } else {
            None
        }
    }
}

/// The fragment index that a negative acknowledgement of `p` carries: that
/// of the fragment, or 0 for any other payload.
pub open spec fn nacked_fragment_index(p: PacketView) -> u64 {
    match p.pack_type {
        PacketTypeView::MsgFragment(f) => f.fragment_index,
        _ => 0,
    }
}

/// The route back from the drone `sender`, which holds a packet at index
/// `h` of `hops`: the drone itself, then the hops before index `h`, from the
/// nearest back to the first (all of `hops` when `h` is past its end).
pub open spec fn back_route(sender: NodeId, hops: Seq<NodeId>, h: int) -> Seq<NodeId> {
    seq![sender] + hops.take(if h <= hops.len() { h } else { hops.len() as int }).reverse()
}

/// The header of a packet that the drone `sender` sends back along
/// `back_route`: as its sender, the drone sets the hop index to 1.
pub open spec fn back_header(sender: NodeId, hops: Seq<NodeId>, h: int) -> HeaderView {
    HeaderView { hop_index: 1, hops: back_route(sender, hops, h) }
}

/// When the drone `sender` stands at index `h` of `hops`, the header that
/// retraces the first `h + 1` hops is its route back.
pub proof fn lemma_reversed_prefix_is_back_header(hops: Seq<NodeId>, h: int, sender: NodeId)
    requires
        0 <= h < hops.len(),
        hops[h] == sender,
    ensures
        reversed_header(hops, h + 1) == back_header(sender, hops, h),
{
    let a = hops.take(h + 1).reverse();
    let b = seq![sender] + hops.take(h).reverse();
    assert forall|j: int| 0 <= j < a.len() implies a[j] == b[j] by {
        if j > 0 {
            assert(b[j] == hops.take(h).reverse()[j - 1]);
        }
    }
    assert(a =~= b);
}

/// Builds the header of `back_header`.
pub fn back_route_header(sender: NodeId, hops: &Vec<NodeId>, h: usize) -> (r: SourceRoutingHeader)
    ensures
        r@ == back_header(sender, hops@, h as int),
{
    let k = if h <= hops.len() { h } else { hops.len() };
    let mut back: Vec<NodeId> = Vec::new();
    back.push(sender);
    let mut i: usize = k;
    while i > 0
        invariant
            i <= k <= hops.len(),
            back@.len() == 1 + k - i,
            back@[0] == sender,
            forall|j: int| 1 <= j < back@.len() ==> back@[j] == hops@[k - j],
        decreases i,
    {
        i = i - 1;
        back.push(hops[i]);
    }
    assert(back@ =~= seq![sender] + hops@.take(k as int).reverse());
    SourceRoutingHeader { hop_index: 1, hops: back }
}

/// The negative acknowledgement that the drone `sender` makes of `p`: it
/// carries the fragment's index (0 for another payload) and travels the
/// route back from the drone (see `back_route`).
pub open spec fn nack_of_view(sender: NodeId, p: PacketView, nack_type: NackType) -> PacketView {
    PacketView {
        pack_type: PacketTypeView::Nack(Nack { fragment_index: nacked_fragment_index(p), nack_type }),
        header: back_header(sender, p.header.hops, p.header.hop_index as int),
        session_id: p.session_id,
    }
}

/// Builds the negative acknowledgement of `nack_of_view`.
pub fn nack_of(sender: NodeId, packet: &Packet, nack_type: NackType) -> (r: Packet)
    ensures
        r@ == nack_of_view(sender, packet@, nack_type),
{
    let fragment_index = match &packet.pack_type {
        PacketType::MsgFragment(frag) => frag.fragment_index,
        _ => 0,
    };
    Packet {
        pack_type: PacketType::Nack(Nack { fragment_index, nack_type }),
        routing_header: back_route_header(sender, &packet.routing_header.hops, packet.routing_header.hop_index),
        session_id: packet.session_id,
    }
}

} // verus!
