//! Packets that nodes hand to the controller to deliver on their behalf, and the
//! global flooding.
use vstd::prelude::*;

use crate::controller::{ControllerView, SimulationController};
use crate::messages::{
    plain, plain_dispatch, send_if, sent_if, Action, ChatClientCommand, CommunicationServerCommand,
    ContentServerCommand, Delivery, Dispatch, MediaClientCommand,
};
use crate::network::{ChannelRef, NodeId, NodeKind, Packet};

verus! {

/// A packet handed over for delivery goes to the last hop of its route, through the
/// first roster that holds that node; fragments of messages are never delivered this way,
/// nor packets whose destination is unknown or whose route is empty.
pub open spec fn shortcut_step(s: ControllerView, p: Packet, delivery: Delivery) -> Seq<Dispatch> {
    match p.destination() {
        Some(d) => match s.route(d) {
            Some(k) => sent_if(!p.is_fragment(), plain(Action::Forward(ChannelRef { kind: k, owner: d }, delivery))),
            None => Seq::empty(),
        },
        None => Seq::empty(),
    }
}

/// The packet is not a message fragment addressed to a known node: handlers that treat
/// such a packet as a fatal error accept only these.
pub open spec fn deliverable_shortcut(s: ControllerView, p: Packet) -> bool {
    match p.destination() {
        Some(d) => s.route(d) is Some ==> !p.is_fragment(),
        None => true,
    }
}

/// The command that asks a node of this roster to flood the network.
pub open spec fn init_flooding(kind: NodeKind, id: NodeId) -> Action {
    match kind {
        NodeKind::ChatClient => Action::ChatClient(id, ChatClientCommand::InitFlooding),
        NodeKind::MediaClient => Action::MediaClient(id, MediaClientCommand::InitFlooding),
        NodeKind::CommunicationServer => Action::CommunicationServer(id, CommunicationServerCommand::InitFlooding),
        NodeKind::TextServer => Action::TextServer(id, ContentServerCommand::InitFlooding),
        NodeKind::MediaServer => Action::MediaServer(id, ContentServerCommand::InitFlooding),
        NodeKind::Drone => Action::GlobalFlooding,
    }
}

/// One flooding request for each node of the roster, in roster order.
pub open spec fn flood_roster(ids: Seq<NodeId>, kind: NodeKind) -> Seq<Dispatch> {
    ids.map_values(|id: NodeId| plain(init_flooding(kind, id)))
}

/// Every chat client, media client, text server, media server and communication server,
/// in that order, is asked to flood the network.
pub open spec fn flooding(s: ControllerView) -> Seq<Dispatch> {
    flood_roster(s.cclients, NodeKind::ChatClient) + flood_roster(s.mclients, NodeKind::MediaClient)
        + flood_roster(s.text_servers, NodeKind::TextServer) + flood_roster(s.media_servers, NodeKind::MediaServer)
        + flood_roster(s.comm_servers, NodeKind::CommunicationServer)
}

/// Each chat client is asked to flood the network, then to start.
pub open spec fn startup(ids: Seq<NodeId>) -> Seq<Dispatch>
    decreases ids.len(),
{
    if ids.len() == 0 {
        Seq::empty()
    } else {
        startup(ids.drop_last()) + seq![
            plain(Action::ChatClient(ids.last(), ChatClientCommand::InitFlooding)),
            plain(Action::ChatClient(ids.last(), ChatClientCommand::StartChatClient)),
        ]
    }
}

fn init_flooding_action(kind: NodeKind, id: NodeId) -> (a: Action)
    ensures
        a == init_flooding(kind, id),
{
    match kind {
        NodeKind::ChatClient => Action::ChatClient(id, ChatClientCommand::InitFlooding),
        NodeKind::MediaClient => Action::MediaClient(id, MediaClientCommand::InitFlooding),
        NodeKind::CommunicationServer => Action::CommunicationServer(id, CommunicationServerCommand::InitFlooding),
        NodeKind::TextServer => Action::TextServer(id, ContentServerCommand::InitFlooding),
        NodeKind::MediaServer => Action::MediaServer(id, ContentServerCommand::InitFlooding),
        NodeKind::Drone => Action::GlobalFlooding,
    }
}

fn push_flooding(ids: &Vec<NodeId>, kind: NodeKind, out: &mut Vec<Dispatch>)
    ensures
        final(out)@ == old(out)@ + flood_roster(ids@, kind),
{
    let ghost start = out@;
    let mut i: usize = 0;
    while i < ids.len()
        invariant
            i <= ids.len(),
            out@ == start + flood_roster(ids@.take(i as int), kind),
        decreases ids.len() - i,
    {
        out.push(plain_dispatch(init_flooding_action(kind, ids[i])));
        assert(flood_roster(ids@.take(i + 1), kind) =~= flood_roster(ids@.take(i as int), kind).push(plain(init_flooding(kind, ids@[i as int]))));
        i = i + 1;
    }
    assert(ids@.take(ids.len() as int) == ids@);
}

impl SimulationController {
    /// Asks every client and server to flood the network again.
    pub fn global_flooding(&self) -> (out: Vec<Dispatch>)
        ensures
            out@ == flooding(self@),
    {
        let mut out: Vec<Dispatch> = Vec::new();
        push_flooding(self.roster(NodeKind::ChatClient), NodeKind::ChatClient, &mut out);
        push_flooding(self.roster(NodeKind::MediaClient), NodeKind::MediaClient, &mut out);
        push_flooding(self.roster(NodeKind::TextServer), NodeKind::TextServer, &mut out);
        push_flooding(self.roster(NodeKind::MediaServer), NodeKind::MediaServer, &mut out);
        push_flooding(self.roster(NodeKind::CommunicationServer), NodeKind::CommunicationServer, &mut out);
        assert(out@ =~= flooding(self@));
        out
    }

    /// What the controller sends when the simulation starts: each chat client is asked to
    /// flood the network and to start.
    pub fn start_chat_clients(&self) -> (out: Vec<Dispatch>)
        ensures
            out@ == startup(self@.cclients),
    {
        let ids = self.roster(NodeKind::ChatClient);
        let mut out: Vec<Dispatch> = Vec::new();
        let mut i: usize = 0;
        while i < ids.len()
            invariant
                i <= ids.len(),
                ids@ == self@.cclients,
                out@ == startup(ids@.take(i as int)),
            decreases ids.len() - i,
        {
            assert(ids@.take(i + 1).drop_last() == ids@.take(i as int));
            out.push(plain_dispatch(Action::ChatClient(ids[i], ChatClientCommand::InitFlooding)));
            out.push(plain_dispatch(Action::ChatClient(ids[i], ChatClientCommand::StartChatClient)));
            assert(out@ =~= startup(ids@.take(i + 1)));
            i = i + 1;
        }
        assert(ids@.take(ids.len() as int) == ids@);
        out
    }

    /// Whether the packet satisfies `deliverable_shortcut`.
    pub fn deliverable(&self, packet: &Packet) -> (r: bool)
        ensures
            r == deliverable_shortcut(self@, *packet),
    {
        match packet.last_hop() {
            Some(d) => self.route(d).is_none() || !packet.fragment(),
            None => true,
        }
    }

    /// Delivers a packet on behalf of a node, as `shortcut_step` says.
    pub fn forward_shortcut(&self, packet: &Packet, delivery: Delivery) -> (out: Vec<Dispatch>)
        ensures
            out@ == shortcut_step(self@, *packet, delivery),
    {
        match packet.last_hop() {
            Some(dest) => match self.route(dest) {
                Some(kind) => send_if(
                    !packet.fragment(),
                    plain_dispatch(Action::Forward(ChannelRef { kind, owner: dest }, delivery)),
                ),
                None => Vec::new(),
            },
            None => Vec::new(),
        }
    }
}

} // verus!
