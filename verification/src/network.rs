//! Plain-value model of the network: node identifiers, node roles, packet-drop
//! rates and the part of a packet that routing decisions read.
use vstd::prelude::*;

verus! {

/// Identifier of a node of the simulated network.
pub type NodeId = u8;

/// Coarse role of a node, as the topology rules see it.
#[derive(Clone, Copy, Debug, PartialEq, Eq, Structural)]
pub enum NodeType {
    Client,
    Drone,
    Server,
}

/// The roster a node is registered in; each roster owns one kind of command channel.
#[derive(Clone, Copy, Debug, PartialEq, Eq, Structural)]
pub enum NodeKind {
    Drone,
    ChatClient,
    MediaClient,
    CommunicationServer,
    TextServer,
    MediaServer,
}

/// Names the packet channel of node `owner` as registered in roster `kind`.
#[derive(Clone, Copy, Debug, PartialEq, Eq, Structural)]
pub struct ChannelRef {
    pub kind: NodeKind,
    pub owner: NodeId,
}

/// A packet drop rate, held as the IEEE-754 bit pattern of the `f32` it stands for
/// (`f32::to_bits`), so that the rules about it are integer rules.
#[derive(Clone, Copy, Debug, PartialEq, Eq, Structural)]
pub struct Pdr {
    pub bits: u32,
}

/// Bit pattern of `1.0_f32`.
pub const ONE_F32_BITS: u32 = 0x3F80_0000u32;

/// Bit pattern of `-0.0_f32`.
pub const NEGATIVE_ZERO_F32_BITS: u32 = 0x8000_0000u32;

/// `0.0 <= x && x <= 1.0` for the `f32` `x` whose bit pattern is `bits`.
///
/// Non-negative floats are ordered like their bit patterns and `1.0` is `0x3F80_0000`;
/// among floats with the sign bit set only `-0.0` compares `>= 0.0`; every NaN fails
/// both comparisons and lies outside both ranges.
pub open spec fn spec_pdr_in_range(bits: u32) -> bool {
    bits <= ONE_F32_BITS || bits == NEGATIVE_ZERO_F32_BITS
}

impl Pdr {
    /// Whether the rate lies in the closed interval `[0.0, 1.0]`.
    pub fn in_range(&self) -> (r: bool)
        ensures
            r == spec_pdr_in_range(self.bits),
    {
        self.bits <= ONE_F32_BITS || self.bits == NEGATIVE_ZERO_F32_BITS
    }
}

/// Reason a packet was refused by a node.
#[derive(Clone, Copy, Debug, PartialEq, Eq, Structural)]
pub enum NackType {
    ErrorInRouting(NodeId),
    DestinationIsDrone,
    Dropped,
    UnexpectedRecipient(NodeId),
}

/// What a packet carries, without its payload.
#[derive(Clone, Copy, Debug, PartialEq, Eq, Structural)]
pub enum PacketType {
    MsgFragment,
    Ack,
    Nack(NackType),
    FloodRequest,
    FloodResponse,
}

/// Source route of a packet: the full list of hops and the position of the current one.
pub struct SourceRoutingHeader {
    pub hop_index: usize,
    pub hops: Vec<NodeId>,
}

/// The part of a packet that the controller reads.
pub struct Packet {
    pub pack_type: PacketType,
    pub routing_header: SourceRoutingHeader,
}

impl Packet {
    /// Node at position `i` of the route, if there is one.
    pub open spec fn hop(&self, i: int) -> Option<NodeId> {
        if 0 <= i < self.routing_header.hops@.len() {
            Some(self.routing_header.hops@[i])
        } else {
            None
        }
    }

    /// Last node of the route, if the route is not empty.
    pub open spec fn destination(&self) -> Option<NodeId> {
        self.hop(self.routing_header.hops@.len() - 1)
    }

    pub open spec fn is_fragment(&self) -> bool {
        self.pack_type is MsgFragment
    }

    /// A refusal for any reason but a deliberate drop.
    pub open spec fn is_routing_nack(&self) -> bool {
        match self.pack_type {
            PacketType::Nack(t) => !(t is Dropped),
            _ => false,
        }
    }

    /// The hop at `i`, or `None`.
    pub fn hop_at(&self, i: usize) -> (r: Option<NodeId>)
        ensures
            r == self.hop(i as int),
    {
        if i < self.routing_header.hops.len() {
            Some(self.routing_header.hops[i])
        } else {
            None
        }
    }

    /// The last hop of the route, or `None` for an empty route.
    pub fn last_hop(&self) -> (r: Option<NodeId>)
        ensures
            r == self.destination(),
    {
        let n = self.routing_header.hops.len();
        if n == 0 {
            None
        } else {
            Some(self.routing_header.hops[n - 1])
        }
    }

    pub fn fragment(&self) -> (r: bool)
        ensures
            r == self.is_fragment(),
    {
        match self.pack_type {
            PacketType::MsgFragment => true,
            _ => false,
        }
    }

    pub fn routing_nack(&self) -> (r: bool)
        ensures
            r == self.is_routing_nack(),
    {
        match self.pack_type {
            PacketType::Nack(NackType::Dropped) => false,
            PacketType::Nack(_) => true,
            _ => false,
        }
    }
}

} // verus!
