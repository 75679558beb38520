//! Changes of the topology that involve two nodes: spawning and crashing a drone, and
//! adding or removing a link.
use vstd::prelude::*;

use crate::controller::{ControllerView, SimulationController};
use crate::error::Error;
use crate::handlers::chat_client::chat_client_command_step;
use crate::handlers::communication_server::communication_server_command_step;
use crate::handlers::drone::drone_command_step;
use crate::handlers::media_client::media_client_command_step;
use crate::handlers::media_server::media_server_command_step;
use crate::handlers::text_server::text_server_command_step;
use crate::messages::{
    one, plain, plain_dispatch, Action, ChatClientCommand, CommunicationServerCommand,
    ContentServerCommand, Dispatch, DroneCommand, MediaClientCommand,
};
use crate::network::{ChannelRef, NodeId, NodeKind, Pdr};
use crate::random::random_below;

verus! {

/// Number of drone implementations a spawned drone is picked from.
pub const DRONE_FACTORIES: usize = 10;

/// Tells the node `target`, through the handler of roster `kind`, to drop its link to `n`.
pub open spec fn unlink_step(s: ControllerView, kind: NodeKind, target: NodeId, n: NodeId) -> (ControllerView, Seq<Dispatch>) {
    match kind {
        NodeKind::Drone => drone_command_step(s, target, DroneCommand::RemoveSender(n)),
        NodeKind::ChatClient => chat_client_command_step(s, target, ChatClientCommand::RemoveSender(n)),
        NodeKind::MediaClient => media_client_command_step(s, target, MediaClientCommand::RemoveSender(n)),
        NodeKind::CommunicationServer => communication_server_command_step(s, target, CommunicationServerCommand::RemoveSender(n)),
        NodeKind::TextServer => text_server_command_step(s, target, ContentServerCommand::RemoveSender(n)),
        NodeKind::MediaServer => media_server_command_step(s, target, ContentServerCommand::RemoveSender(n)),
    }
}

/// Tells the node `target`, through the handler of roster `kind`, to link to `n` over
/// the packet channel `ch`.
pub open spec fn link_step(s: ControllerView, kind: NodeKind, target: NodeId, n: NodeId, ch: ChannelRef) -> (ControllerView, Seq<Dispatch>) {
    match kind {
        NodeKind::Drone => drone_command_step(s, target, DroneCommand::AddSender(n, ch)),
        NodeKind::ChatClient => chat_client_command_step(s, target, ChatClientCommand::AddSender(n, ch)),
        NodeKind::MediaClient => media_client_command_step(s, target, MediaClientCommand::AddSender(n, ch)),
        NodeKind::CommunicationServer => communication_server_command_step(s, target, CommunicationServerCommand::AddSender(n, ch)),
        NodeKind::TextServer => text_server_command_step(s, target, ContentServerCommand::AddSender(n, ch)),
        NodeKind::MediaServer => media_server_command_step(s, target, ContentServerCommand::AddSender(n, ch)),
    }
}

/// `id` appended to the neighbor list of each node of `ns`, in order.
pub open spec fn link_back(s: ControllerView, ns: Seq<NodeId>, id: NodeId) -> ControllerView
    decreases ns.len(),
{
    if ns.len() == 0 {
        s
    } else {
        link_back(s, ns.drop_last(), id).linked(ns.last(), id)
    }
}

/// Spawning registers the drone, gives it the neighbor list `ns`, appends it to the list
/// of each node of `ns`, and asks for the drone to be built from factory `factory`.
pub open spec fn spawn_step(s: ControllerView, id: NodeId, ns: Seq<NodeId>, pdr: Pdr, factory: usize) -> (ControllerView, Seq<Dispatch>) {
    (
        link_back(s.with_drone(id).with_neighbors(id, ns), ns, id),
        seq![plain(Action::CreateDrone(id, factory, pdr))],
    )
}

/// Every node that `ns` names, other than the new drone itself, is a drone with a
/// neighbor list: spawning needs both.
pub open spec fn spawnable(s: ControllerView, id: NodeId, ns: Seq<NodeId>) -> bool {
    forall|i: int| 0 <= i < ns.len() && ns[i] != id ==> s.drones.contains(#[trigger] ns[i]) && s.has_entry(ns[i])
}

/// The roster whose handler tells a neighbor of a crashed drone to drop it: the first
/// holding it, media servers when none does.
pub open spec fn crash_route(s: ControllerView, n: NodeId) -> NodeKind {
    match s.route(n) {
        Some(k) => k,
        None => NodeKind::MediaServer,
    }
}

/// Each node of `ns`, in order, is told to drop its link to `drone`.
pub open spec fn crash_fold(s: ControllerView, drone: NodeId, ns: Seq<NodeId>) -> (ControllerView, Seq<Dispatch>)
    decreases ns.len(),
{
    if ns.len() == 0 {
        (s, Seq::empty())
    } else {
        let prev = crash_fold(s, drone, ns.drop_last());
        let next = unlink_step(prev.0, crash_route(prev.0, ns.last()), ns.last(), drone);
        (next.0, prev.1 + next.1)
    }
}

/// Crashing tells every neighbor of the drone, as listed when the crash starts, to drop
/// its link to it.
pub open spec fn crash_step(s: ControllerView, drone: NodeId) -> (ControllerView, Seq<Dispatch>) {
    if s.has_entry(drone) {
        crash_fold(s, drone, s.neighbor[drone])
    } else {
        (s, Seq::empty())
    }
}

/// Removing the link from `node_id` to `to_remove` needs a neighbor list of `node_id`
/// that holds `to_remove`; then `to_remove`, through the first roster holding it, is told
/// to drop `node_id`. A node in no roster is refused.
pub open spec fn remove_sender_step(s: ControllerView, node_id: NodeId, to_remove: NodeId) -> (ControllerView, Seq<Dispatch>, Result<(), Error>) {
    if !s.has_entry(node_id) {
        (s, Seq::empty(), Err(Error::HasNoNeighbor(node_id)))
    } else if !s.neighbor[node_id].contains(to_remove) {
        (s, Seq::empty(), Err(Error::NotNeighbor(to_remove, node_id)))
    } else {
        match s.route(to_remove) {
            Some(k) => {
                let r = unlink_step(s, k, to_remove, node_id);
                (r.0, r.1, Ok(()))
            },
            None => (s, Seq::empty(), Err(Error::ClientOnClient)),
        }
    }
}

/// The roster through which the node gaining a link is told about it: the first of
/// drones, media clients, chat clients, communication, text and media servers holding it.
pub open spec fn add_route(s: ControllerView, id: NodeId) -> Option<NodeKind> {
    if s.drones.contains(id) {
        Some(NodeKind::Drone)
    } else if s.mclients.contains(id) {
        Some(NodeKind::MediaClient)
    } else if s.cclients.contains(id) {
        Some(NodeKind::ChatClient)
    } else if s.comm_servers.contains(id) {
        Some(NodeKind::CommunicationServer)
    } else if s.text_servers.contains(id) {
        Some(NodeKind::TextServer)
    } else if s.media_servers.contains(id) {
        Some(NodeKind::MediaServer)
    } else {
        None
    }
}

/// Adding the link from `node_id` to `to_add` needs a neighbor list of `node_id` that
/// lacks `to_add`; then `to_add`, through `add_route`, is told to link to `node_id` over
/// the packet channel of `node_id`. A node in no roster is refused.
pub open spec fn add_sender_step(s: ControllerView, node_id: NodeId, to_add: NodeId) -> (ControllerView, Seq<Dispatch>, Result<(), Error>) {
    if !s.has_entry(node_id) {
        (s, Seq::empty(), Err(Error::HasNoNeighbor(node_id)))
    } else if s.neighbor[node_id].contains(to_add) {
        (s, Seq::empty(), Err(Error::IsNeighbor(to_add, node_id)))
    } else {
        let ch = ChannelRef { kind: crash_route(s, node_id), owner: node_id };
        match add_route(s, to_add) {
            Some(k) => {
                let r = link_step(s, k, to_add, node_id, ch);
                (r.0, r.1, Ok(()))
            },
            None => (s, Seq::empty(), Err(Error::ClientOnClient)),
        }
    }
}

/// Adding a link needs the packet channel of `node_id`, so `node_id` must then be in
/// some roster.
pub open spec fn addable(s: ControllerView, node_id: NodeId, to_add: NodeId) -> bool {
    s.has_entry(node_id) && !s.neighbor[node_id].contains(to_add) ==> s.route(node_id) is Some
}

impl SimulationController {
    /// Runs the handler of roster `kind` on the node `target` with a link removal.
    pub fn unlink(&mut self, kind: NodeKind, target: NodeId, n: NodeId) -> (out: Vec<Dispatch>)
        requires
            old(self)@.wf(),
        ensures
            final(self)@.wf(),
            final(self)@ == unlink_step(old(self)@, kind, target, n).0,
            out@ == unlink_step(old(self)@, kind, target, n).1,
    {
        match kind {
            NodeKind::Drone => self.handle_drone_command(&target, DroneCommand::RemoveSender(n)),
            NodeKind::ChatClient => self.handle_chat_client_command(&target, ChatClientCommand::RemoveSender(n)),
            NodeKind::MediaClient => self.handle_media_client_command(&target, MediaClientCommand::RemoveSender(n)),
            NodeKind::CommunicationServer => self.handle_communication_server_command(&target, CommunicationServerCommand::RemoveSender(n)),
            NodeKind::TextServer => self.handle_text_server_command(&target, ContentServerCommand::RemoveSender(n)),
            NodeKind::MediaServer => self.handle_media_server_command(&target, ContentServerCommand::RemoveSender(n)),
        }
    }

    /// Runs the handler of roster `kind` on the node `target` with a new link.
    pub fn link(&mut self, kind: NodeKind, target: NodeId, n: NodeId, ch: ChannelRef) -> (out: Vec<Dispatch>)
        requires
            old(self)@.wf(),
        ensures
            final(self)@.wf(),
            final(self)@ == link_step(old(self)@, kind, target, n, ch).0,
            out@ == link_step(old(self)@, kind, target, n, ch).1,
    {
        match kind {
            NodeKind::Drone => self.handle_drone_command(&target, DroneCommand::AddSender(n, ch)),
            NodeKind::ChatClient => self.handle_chat_client_command(&target, ChatClientCommand::AddSender(n, ch)),
            NodeKind::MediaClient => self.handle_media_client_command(&target, MediaClientCommand::AddSender(n, ch)),
            NodeKind::CommunicationServer => self.handle_communication_server_command(&target, CommunicationServerCommand::AddSender(n, ch)),
            NodeKind::TextServer => self.handle_text_server_command(&target, ContentServerCommand::AddSender(n, ch)),
            NodeKind::MediaServer => self.handle_media_server_command(&target, ContentServerCommand::AddSender(n, ch)),
        }
    }

    /// Spawns a drone built from the factory of index `factory`.
    pub fn spawn_with_factory(&mut self, id: NodeId, connected_node_ids: &Vec<NodeId>, pdr: Pdr, factory: usize) -> (out: Vec<Dispatch>)
        requires
            old(self)@.wf(),
            spawnable(old(self)@, id, connected_node_ids@),
        ensures
            final(self)@.wf(),
            final(self)@ == spawn_step(old(self)@, id, connected_node_ids@, pdr, factory).0,
            out@ == spawn_step(old(self)@, id, connected_node_ids@, pdr, factory).1,
    {
        let ghost s0 = self@;
        let ns = connected_node_ids;
        self.register_drone(id);
        self.set_neighbors(id, ns.clone());
        proof {
            assert(self@ == s0.with_drone(id).with_neighbors(id, ns@));
        }
        let ghost s1 = self@;
        let mut i: usize = 0;
        while i < ns.len()
            invariant
                i <= ns.len(),
                self@.wf(),
                self@ == link_back(s1, ns@.take(i as int), id),
                spawnable(s0, id, ns@),
                s1 == s0.with_drone(id).with_neighbors(id, ns@),
            decreases ns.len() - i,
        {
            assert(ns@.take(i + 1).drop_last() == ns@.take(i as int));
            self.add_link(ns[i], id);
            i = i + 1;
        }
        assert(ns@.take(ns.len() as int) == ns@);
        one(plain_dispatch(Action::CreateDrone(id, factory, pdr)))
    }

    /// Spawns a drone built from a factory picked at random; the index of that factory
    /// is the one the dispatch names.
    pub fn spawn(&mut self, id: NodeId, connected_node_ids: Vec<NodeId>, pdr: Pdr) -> (r: Result<Vec<Dispatch>, Error>)
        requires
            old(self)@.wf(),
            spawnable(old(self)@, id, connected_node_ids@),
        ensures
            final(self)@.wf(),
            r matches Ok(out) && exists|k: usize| k < DRONE_FACTORIES
                && final(self)@ == spawn_step(old(self)@, id, connected_node_ids@, pdr, k).0
                && out@ == spawn_step(old(self)@, id, connected_node_ids@, pdr, k).1,
    {
        let factory = random_below(DRONE_FACTORIES);
        Ok(self.spawn_with_factory(id, &connected_node_ids, pdr, factory))
    }

    /// Tells every neighbor of the drone to drop its link to it.
    pub fn crash(&mut self, node_id: NodeId) -> (r: Result<Vec<Dispatch>, Error>)
        requires
            old(self)@.wf(),
        ensures
            final(self)@.wf(),
            r matches Ok(out) && final(self)@ == crash_step(old(self)@, node_id).0 && out@ == crash_step(old(self)@, node_id).1,
    {
        let ghost s0 = self@;
        let ns = match self.neighbors(node_id) {
            Some(v) => v.clone(),
            None => return Ok(Vec::new()),
        };
        assert(ns@ =~= s0.neighbor[node_id]);
        let mut out: Vec<Dispatch> = Vec::new();
        let mut i: usize = 0;
        while i < ns.len()
            invariant
                i <= ns.len(),
                self@.wf(),
                self@ == crash_fold(s0, node_id, ns@.take(i as int)).0,
                out@ == crash_fold(s0, node_id, ns@.take(i as int)).1,
            decreases ns.len() - i,
        {
            assert(ns@.take(i + 1).drop_last() == ns@.take(i as int));
            let n = ns[i];
            let kind = match self.route(n) {
                Some(k) => k,
                None => NodeKind::MediaServer,
            };
            let mut more = self.unlink(kind, n, node_id);
            out.append(&mut more);
            i = i + 1;
        }
        assert(ns@.take(ns.len() as int) == ns@);
        Ok(out)
    }

    /// Removes the link from `node_id` to `to_remove` on the side of `to_remove`.
    pub fn remove_sender(&mut self, node_id: NodeId, to_remove: NodeId) -> (r: Result<Vec<Dispatch>, Error>)
        requires
            old(self)@.wf(),
        ensures
            final(self)@.wf(),
            final(self)@ == remove_sender_step(old(self)@, node_id, to_remove).0,
            match r {
                Ok(out) => remove_sender_step(old(self)@, node_id, to_remove).2 is Ok
                    && out@ == remove_sender_step(old(self)@, node_id, to_remove).1,
                Err(e) => remove_sender_step(old(self)@, node_id, to_remove).2 == Err::<(), Error>(e),
            },
    {
        let present = match self.has_neighbors(node_id) {
            Ok(neighbor) => crate::verify::is_a_neighbor(neighbor.as_slice(), to_remove, node_id, false),
            Err(e) => return Err(e),
        };
        if let Err(e) = present {
            return Err(e);
        }
        match self.route(to_remove) {
            Some(kind) => Ok(self.unlink(kind, to_remove, node_id)),
            None => Err(Error::ClientOnClient),
        }
    }

    /// The roster through which a node gaining a link is told about it.
    pub fn add_route(&self, id: NodeId) -> (r: Option<NodeKind>)
        ensures
            r == add_route(self@, id),
    {
        if self.is_in(NodeKind::Drone, id) {
            Some(NodeKind::Drone)
        } else if self.is_in(NodeKind::MediaClient, id) {
            Some(NodeKind::MediaClient)
        } else if self.is_in(NodeKind::ChatClient, id) {
            Some(NodeKind::ChatClient)
        } else if self.is_in(NodeKind::CommunicationServer, id) {
            Some(NodeKind::CommunicationServer)
        } else if self.is_in(NodeKind::TextServer, id) {
            Some(NodeKind::TextServer)
        } else if self.is_in(NodeKind::MediaServer, id) {
            Some(NodeKind::MediaServer)
        } else {
            None
        }
    }

    /// Adds the link from `node_id` to `to_add` on the side of `to_add`.
    pub fn add_sender(&mut self, node_id: NodeId, to_add: NodeId) -> (r: Result<Vec<Dispatch>, Error>)
        requires
            old(self)@.wf(),
            addable(old(self)@, node_id, to_add),
        ensures
            final(self)@.wf(),
            final(self)@ == add_sender_step(old(self)@, node_id, to_add).0,
            match r {
                Ok(out) => add_sender_step(old(self)@, node_id, to_add).2 is Ok
                    && out@ == add_sender_step(old(self)@, node_id, to_add).1,
                Err(e) => add_sender_step(old(self)@, node_id, to_add).2 == Err::<(), Error>(e),
            },
    {
        let absent = match self.has_neighbors(node_id) {
            Ok(neighbor) => crate::verify::is_a_neighbor(neighbor.as_slice(), to_add, node_id, true),
            Err(e) => return Err(e),
        };
        if let Err(e) = absent {
            return Err(e);
        }
        let own = match self.route(node_id) {
            Some(k) => k,
            None => NodeKind::MediaServer,
        };
        let ch = ChannelRef { kind: own, owner: node_id };
        match self.add_route(to_add) {
            Some(kind) => Ok(self.link(kind, to_add, node_id, ch)),
            None => Err(Error::ClientOnClient),
        }
    }
}

} // verus!
