//! Packets exchanged between the nodes of the network and their views.
use vstd::prelude::*;

verus! {

/// Identifier of a node (client, drone or server).
pub type NodeId = u8;

/// Kind of a node, as recorded in the path trace of a flood.
#[derive(Debug, Clone, Copy, PartialEq, Eq)]
pub enum NodeType {
    Client,
    Drone,
    Server,
}

/// Reason carried by a negative acknowledgement.
#[derive(Debug, Clone, Copy, PartialEq, Eq)]
pub enum NackType {
    ErrorInRouting(NodeId),
    DestinationIsDrone,
    Dropped,
    UnexpectedRecipient(NodeId),
}

/// Negative acknowledgement of a fragment.
#[derive(Debug, Clone, Copy, PartialEq, Eq)]
pub struct Nack {
    pub fragment_index: u64,
    pub nack_type: NackType,
}

/// Acknowledgement of a fragment.
#[derive(Debug, Clone, Copy, PartialEq, Eq)]
pub struct Ack {
    pub fragment_index: u64,
}

/// One fragment of a message: `length` meaningful bytes at the front of `data`.
#[derive(Debug, Clone, Copy, PartialEq, Eq)]
pub struct Fragment {
    pub fragment_index: u64,
    pub total_n_fragments: u64,
    pub length: u8,
    pub data: [u8; 128],
}

/// Request that floods the network to discover its topology.
#[derive(Debug, PartialEq, Eq)]
pub struct FloodRequest {
    pub flood_id: u64,
    pub initiator_id: NodeId,
    pub path_trace: Vec<(NodeId, NodeType)>,
}

/// Answer to a flood request, carrying the path that the request took.
#[derive(Debug, PartialEq, Eq)]
pub struct FloodResponse {
    pub flood_id: u64,
    pub path_trace: Vec<(NodeId, NodeType)>,
}

/// Payload of a packet.
#[derive(Debug, PartialEq, Eq)]
pub enum PacketType {
    Nack(Nack),
    Ack(Ack),
    MsgFragment(Fragment),
    FloodRequest(FloodRequest),
    FloodResponse(FloodResponse),
}

/// Source route of a packet: `hops[hop_index]` is the node that holds it now.
#[derive(Debug, PartialEq, Eq)]
pub struct SourceRoutingHeader {
    pub hop_index: usize,
    pub hops: Vec<NodeId>,
}

/// A packet travelling through the network.
#[derive(Debug, PartialEq, Eq)]
pub struct Packet {
    pub pack_type: PacketType,
    pub routing_header: SourceRoutingHeader,
    pub session_id: u64,
}

/// What a drone reports to the simulation controller.
#[derive(Debug, PartialEq, Eq)]
pub enum DroneEvent {
    PacketSent(Packet),
    PacketDropped(Packet),
    ControllerShortcut(Packet),
}

// ---------------------------------------------------------------------------
// Views
// ---------------------------------------------------------------------------

/// Mathematical value of a flood request.
pub struct FloodRequestView {
    pub flood_id: u64,
    pub initiator_id: NodeId,
    pub path_trace: Seq<(NodeId, NodeType)>,
}

/// Mathematical value of a flood response.
pub struct FloodResponseView {
    pub flood_id: u64,
    pub path_trace: Seq<(NodeId, NodeType)>,
}

/// Mathematical value of a payload.
pub enum PacketTypeView {
    Nack(Nack),
    Ack(Ack),
    MsgFragment(Fragment),
    FloodRequest(FloodRequestView),
    FloodResponse(FloodResponseView),
}

/// Mathematical value of a routing header.
pub struct HeaderView {
    pub hop_index: nat,
    pub hops: Seq<NodeId>,
}

/// Mathematical value of a packet.
pub struct PacketView {
    pub pack_type: PacketTypeView,
    pub header: HeaderView,
    pub session_id: u64,
}

/// Mathematical value of a controller event.
pub enum DroneEventView {
    PacketSent(PacketView),
    PacketDropped(PacketView),
    ControllerShortcut(PacketView),
}

impl View for FloodRequest {
    type V = FloodRequestView;

    open spec fn view(&self) -> FloodRequestView {
        FloodRequestView {
            flood_id: self.flood_id,
            initiator_id: self.initiator_id,
            path_trace: self.path_trace@,
        }
    }
}

impl View for FloodResponse {
    type V = FloodResponseView;

    open spec fn view(&self) -> FloodResponseView {
        FloodResponseView { flood_id: self.flood_id, path_trace: self.path_trace@ }
    }
}

impl View for PacketType {
    type V = PacketTypeView;

    open spec fn view(&self) -> PacketTypeView {
        match self {
            PacketType::Nack(n) => PacketTypeView::Nack(*n),
            PacketType::Ack(a) => PacketTypeView::Ack(*a),
            PacketType::MsgFragment(f) => PacketTypeView::MsgFragment(*f),
            PacketType::FloodRequest(r) => PacketTypeView::FloodRequest(r@),
            PacketType::FloodResponse(r) => PacketTypeView::FloodResponse(r@),
        }
    }
}

impl View for SourceRoutingHeader {
    type V = HeaderView;

    open spec fn view(&self) -> HeaderView {
        HeaderView { hop_index: self.hop_index as nat, hops: self.hops@ }
    }
}

impl View for Packet {
    type V = PacketView;

    open spec fn view(&self) -> PacketView {
        PacketView {
            pack_type: self.pack_type@,
            header: self.routing_header@,
            session_id: self.session_id,
        }
    }
}

impl View for DroneEvent {
    type V = DroneEventView;

    open spec fn view(&self) -> DroneEventView {
        match self {
            DroneEvent::PacketSent(p) => DroneEventView::PacketSent(p@),
            DroneEvent::PacketDropped(p) => DroneEventView::PacketDropped(p@),
            DroneEvent::ControllerShortcut(p) => DroneEventView::ControllerShortcut(p@),
        }
    }
}

/// The node ids of a path trace, in order.
pub open spec fn trace_ids(trace: Seq<(NodeId, NodeType)>) -> Seq<NodeId> {
    trace.map_values(|e: (NodeId, NodeType)| e.0)
}

/// The node ids of a path trace, in order.
pub fn trace_node_ids(trace: &Vec<(NodeId, NodeType)>) -> (r: Vec<NodeId>)
    ensures
        r@ == trace_ids(trace@),
{
    let mut r: Vec<NodeId> = Vec::new();
    let mut i: usize = 0;
    while i < trace.len()
        invariant
            i <= trace.len(),
            r@ == trace_ids(trace@.take(i as int)),
        decreases trace.len() - i,
    {
        r.push(trace[i].0);
        i = i + 1;
        assert(r@ =~= trace_ids(trace@.take(i as int)));
    }
    assert(trace@.take(i as int) =~= trace@);
    r
}

impl Packet {
    /// A negative acknowledgement travelling along `routing_header`.
    pub fn new_nack(routing_header: SourceRoutingHeader, session_id: u64, nack: Nack) -> (r: Packet)
        ensures
            r@ == (PacketView {
                pack_type: PacketTypeView::Nack(nack),
                header: routing_header@,
                session_id,
            }),
    {
        Packet { pack_type: PacketType::Nack(nack), routing_header, session_id }
    }

    /// A flood response travelling along `routing_header`.
    pub fn new_flood_response(
        routing_header: SourceRoutingHeader,
        session_id: u64,
        flood_response: FloodResponse,
    ) -> (r: Packet)
        ensures
            r@ == (PacketView {
                pack_type: PacketTypeView::FloodResponse(flood_response@),
                header: routing_header@,
                session_id,
            }),
    {
        Packet { pack_type: PacketType::FloodResponse(flood_response), routing_header, session_id }
    }
}

/// Copies a sequence of node ids.
pub fn copy_hops(hops: &Vec<NodeId>) -> (r: Vec<NodeId>)
    ensures
        r@ == hops@,
{
    let mut r: Vec<NodeId> = Vec::new();
    let mut i: usize = 0;
    while i < hops.len()
        invariant
            i <= hops.len(),
            r@ == hops@.take(i as int),
        decreases hops.len() - i,
    {
        r.push(hops[i]);
        i = i + 1;
        assert(r@ =~= hops@.take(i as int));
    }
    assert(hops@.take(i as int) =~= hops@);
    r
}

/// Copies a path trace.
pub fn copy_trace(trace: &Vec<(NodeId, NodeType)>) -> (r: Vec<(NodeId, NodeType)>)
    ensures
        r@ == trace@,
{
    let mut r: Vec<(NodeId, NodeType)> = Vec::new();
    let mut i: usize = 0;
    while i < trace.len()
        invariant
            i <= trace.len(),
            r@ == trace@.take(i as int),
        decreases trace.len() - i,
    {
        r.push(trace[i]);
        i = i + 1;
        assert(r@ =~= trace@.take(i as int));
    }
    assert(trace@.take(i as int) =~= trace@);
    r
}

impl Clone for FloodRequest {
    fn clone(&self) -> (r: Self)
        ensures
            r@ == self@,
    {
        FloodRequest {
            flood_id: self.flood_id,
            initiator_id: self.initiator_id,
            path_trace: copy_trace(&self.path_trace),
        }
    }
}

impl Clone for FloodResponse {
    fn clone(&self) -> (r: Self)
        ensures
            r@ == self@,
    {
        FloodResponse { flood_id: self.flood_id, path_trace: copy_trace(&self.path_trace) }
    }
}

impl Clone for PacketType {
    fn clone(&self) -> (r: Self)
        ensures
            r@ == self@,
    {
        match self {
            PacketType::Nack(n) => PacketType::Nack(*n),
            PacketType::Ack(a) => PacketType::Ack(*a),
            PacketType::MsgFragment(f) => PacketType::MsgFragment(*f),
            PacketType::FloodRequest(r) => PacketType::FloodRequest(r.clone()),
            PacketType::FloodResponse(r) => PacketType::FloodResponse(r.clone()),
        }
    }
}

impl Clone for SourceRoutingHeader {
    fn clone(&self) -> (r: Self)
        ensures
            r@ == self@,
    {
        SourceRoutingHeader { hop_index: self.hop_index, hops: copy_hops(&self.hops) }
    }
}

impl Clone for Packet {
    fn clone(&self) -> (r: Self)
        ensures
            r@ == self@,
    {
        Packet {
            pack_type: self.pack_type.clone(),
            routing_header: self.routing_header.clone(),
            session_id: self.session_id,
        }
    }
}

impl Clone for DroneEvent {
    fn clone(&self) -> (r: Self)
        ensures
            r@ == self@,
    {
        match self {
            DroneEvent::PacketSent(p) => DroneEvent::PacketSent(p.clone()),
            DroneEvent::PacketDropped(p) => DroneEvent::PacketDropped(p.clone()),
            DroneEvent::ControllerShortcut(p) => DroneEvent::ControllerShortcut(p.clone()),
        }
    }
}

} // verus!
