//! The controller's knowledge of the network: which node is registered in which
//! roster, and the neighbor list of each node.
use std::collections::HashMap;
use vstd::prelude::*;

use crate::network::{NodeId, NodeKind};
use crate::seq_util::{appended, contains, dedup, lemma_dedup_no_duplicates, lemma_without_no_duplicates, remove_all, unique, without};

verus! {

broadcast use {
    vstd::std_specs::hash::group_hash_axioms,
    vstd::std_specs::hash::axiom_u8_obeys_hash_table_key_model,
};

/// State of the simulation controller: the rosters of drones, clients and servers, and
/// the neighbor list of each node.
pub struct SimulationController {
    drones: Vec<NodeId>,
    cclients: Vec<NodeId>,
    mclients: Vec<NodeId>,
    comm_servers: Vec<NodeId>,
    text_servers: Vec<NodeId>,
    media_servers: Vec<NodeId>,
    neighbor: HashMap<NodeId, Vec<NodeId>>,
}

/// Mathematical model of the controller's state.
pub struct ControllerView {
    pub drones: Seq<NodeId>,
    pub cclients: Seq<NodeId>,
    pub mclients: Seq<NodeId>,
    pub comm_servers: Seq<NodeId>,
    pub text_servers: Seq<NodeId>,
    pub media_servers: Seq<NodeId>,
    pub neighbor: Map<NodeId, Seq<NodeId>>,
}

/// The neighbor map, each list taken by its contents.
pub open spec fn neighbor_view(m: Map<NodeId, Vec<NodeId>>) -> Map<NodeId, Seq<NodeId>> {
    m.map_values(|v: Vec<NodeId>| v@)
}

impl ControllerView {
    /// No roster lists a node twice.
    pub open spec fn wf(self) -> bool {
        &&& self.drones.no_duplicates()
        &&& self.cclients.no_duplicates()
        &&& self.mclients.no_duplicates()
        &&& self.comm_servers.no_duplicates()
        &&& self.text_servers.no_duplicates()
        &&& self.media_servers.no_duplicates()
    }

    pub open spec fn roster(self, kind: NodeKind) -> Seq<NodeId> {
        match kind {
            NodeKind::Drone => self.drones,
            NodeKind::ChatClient => self.cclients,
            NodeKind::MediaClient => self.mclients,
            NodeKind::CommunicationServer => self.comm_servers,
            NodeKind::TextServer => self.text_servers,
            NodeKind::MediaServer => self.media_servers,
        }
    }

    pub open spec fn is_in(self, kind: NodeKind, id: NodeId) -> bool {
        self.roster(kind).contains(id)
    }

    /// Registered in some roster.
    pub open spec fn is_known(self, id: NodeId) -> bool {
        ||| self.drones.contains(id)
        ||| self.cclients.contains(id)
        ||| self.mclients.contains(id)
        ||| self.comm_servers.contains(id)
        ||| self.text_servers.contains(id)
        ||| self.media_servers.contains(id)
    }

    pub open spec fn has_entry(self, id: NodeId) -> bool {
        self.neighbor.contains_key(id)
    }

    pub open spec fn with_neighbors(self, id: NodeId, s: Seq<NodeId>) -> Self {
        ControllerView { neighbor: self.neighbor.insert(id, s), ..self }
    }

    /// `n` taken out of the neighbor list of `id`, when `id` has one.
    pub open spec fn unlinked(self, id: NodeId, n: NodeId) -> Self {
        if self.has_entry(id) {
            self.with_neighbors(id, without(self.neighbor[id], n))
        } else {
            self
        }
    }

    /// `n` appended to the neighbor list of `id`, when `id` has one.
    pub open spec fn linked(self, id: NodeId, n: NodeId) -> Self {
        if self.has_entry(id) {
            self.with_neighbors(id, self.neighbor[id].push(n))
        } else {
            self
        }
    }

    /// Where a packet for `id` is delivered: the first roster holding `id`, in the order
    /// drones, chat clients, media clients, communication, text and media servers.
    pub open spec fn route(self, id: NodeId) -> Option<NodeKind> {
        if self.drones.contains(id) {
            Some(NodeKind::Drone)
        } else if self.cclients.contains(id) {
            Some(NodeKind::ChatClient)
        } else if self.mclients.contains(id) {
            Some(NodeKind::MediaClient)
        } else if self.comm_servers.contains(id) {
            Some(NodeKind::CommunicationServer)
        } else if self.text_servers.contains(id) {
            Some(NodeKind::TextServer)
        } else if self.media_servers.contains(id) {
            Some(NodeKind::MediaServer)
        } else {
            None
        }
    }

    pub open spec fn without_entry(self, id: NodeId) -> Self {
        ControllerView { neighbor: self.neighbor.remove(id), ..self }
    }

    pub open spec fn with_drone(self, id: NodeId) -> Self {
        ControllerView {
            drones: if self.drones.contains(id) { self.drones } else { self.drones.push(id) },
            ..self
        }
    }

    pub open spec fn without_drone(self, id: NodeId) -> Self {
        ControllerView { drones: without(self.drones, id), ..self }
    }

    /// The same clients and servers are registered in both states.
    pub open spec fn same_endpoints(self, other: Self) -> bool {
        &&& self.cclients == other.cclients
        &&& self.mclients == other.mclients
        &&& self.comm_servers == other.comm_servers
        &&& self.text_servers == other.text_servers
        &&& self.media_servers == other.media_servers
    }
}

impl View for SimulationController {
    type V = ControllerView;

    closed spec fn view(&self) -> ControllerView {
        ControllerView {
            drones: self.drones@,
            cclients: self.cclients@,
            mclients: self.mclients@,
            comm_servers: self.comm_servers@,
            text_servers: self.text_servers@,
            media_servers: self.media_servers@,
            neighbor: neighbor_view(self.neighbor@),
        }
    }
}

impl SimulationController {
    /// Builds the state from the ids registered in each roster and the neighbor map.
    /// A roster keeps the first occurrence of each id.
    pub fn new(
        drones: Vec<NodeId>,
        neighbor: HashMap<NodeId, Vec<NodeId>>,
        cclients: Vec<NodeId>,
        mclients: Vec<NodeId>,
        comm_servers: Vec<NodeId>,
        text_servers: Vec<NodeId>,
        media_servers: Vec<NodeId>,
    ) -> (r: Self)
        ensures
            r@.wf(),
            r@.drones == dedup(drones@),
            r@.cclients == dedup(cclients@),
            r@.mclients == dedup(mclients@),
            r@.comm_servers == dedup(comm_servers@),
            r@.text_servers == dedup(text_servers@),
            r@.media_servers == dedup(media_servers@),
            r@.neighbor == neighbor_view(neighbor@),
    {
        proof {
            lemma_dedup_no_duplicates(drones@);
            lemma_dedup_no_duplicates(cclients@);
            lemma_dedup_no_duplicates(mclients@);
            lemma_dedup_no_duplicates(comm_servers@);
            lemma_dedup_no_duplicates(text_servers@);
            lemma_dedup_no_duplicates(media_servers@);
        }
        SimulationController {
            drones: unique(&drones),
            cclients: unique(&cclients),
            mclients: unique(&mclients),
            comm_servers: unique(&comm_servers),
            text_servers: unique(&text_servers),
            media_servers: unique(&media_servers),
            neighbor,
        }
    }

    /// The ids registered in a roster, in order of registration.
    pub fn roster(&self, kind: NodeKind) -> (r: &Vec<NodeId>)
        ensures
            r@ == self@.roster(kind),
    {
        match kind {
            NodeKind::Drone => &self.drones,
            NodeKind::ChatClient => &self.cclients,
            NodeKind::MediaClient => &self.mclients,
            NodeKind::CommunicationServer => &self.comm_servers,
            NodeKind::TextServer => &self.text_servers,
            NodeKind::MediaServer => &self.media_servers,
        }
    }

    /// Whether `id` is registered in the roster.
    pub fn is_in(&self, kind: NodeKind, id: NodeId) -> (r: bool)
        ensures
            r == self@.is_in(kind, id),
    {
        contains(self.roster(kind), id)
    }

    /// The neighbor list of `id`, if it has one.
    pub fn neighbors(&self, id: NodeId) -> (r: Option<&Vec<NodeId>>)
        ensures
            match r {
                Some(v) => self@.has_entry(id) && v@ == self@.neighbor[id],
                None => !self@.has_entry(id),
            },
    {
        self.neighbor.get(&id)
    }

    /// The roster a packet for `id` is delivered through, if any.
    pub fn route(&self, id: NodeId) -> (r: Option<NodeKind>)
        ensures
            r == self@.route(id),
    {
        if self.is_in(NodeKind::Drone, id) {
            Some(NodeKind::Drone)
        } else if self.is_in(NodeKind::ChatClient, id) {
            Some(NodeKind::ChatClient)
        } else if self.is_in(NodeKind::MediaClient, id) {
            Some(NodeKind::MediaClient)
        } else if self.is_in(NodeKind::CommunicationServer, id) {
            Some(NodeKind::CommunicationServer)
        } else if self.is_in(NodeKind::TextServer, id) {
            Some(NodeKind::TextServer)
        } else if self.is_in(NodeKind::MediaServer, id) {
            Some(NodeKind::MediaServer)
        } else {
            None
        }
    }

    /// Takes every `n` out of the neighbor list of `id`; tells whether `id` had one.
    pub(crate) fn remove_link(&mut self, id: NodeId, n: NodeId) -> (had: bool)
        requires
            old(self)@.wf(),
        ensures
            had == old(self)@.has_entry(id),
            final(self)@ == old(self)@.unlinked(id, n),
            final(self)@.wf(),
    {
        let updated = match self.neighbors(id) {
            Some(v) => Some(remove_all(v, n)),
            None => None,
        };
        match updated {
            Some(v) => {
                self.set_neighbors(id, v);
                true
            },
            None => false,
        }
    }

    /// Appends `n` to the neighbor list of `id`; tells whether `id` had one.
    pub(crate) fn add_link(&mut self, id: NodeId, n: NodeId) -> (had: bool)
        requires
            old(self)@.wf(),
        ensures
            had == old(self)@.has_entry(id),
            final(self)@ == old(self)@.linked(id, n),
            final(self)@.wf(),
    {
        let updated = match self.neighbors(id) {
            Some(v) => Some(appended(v, n)),
            None => None,
        };
        match updated {
            Some(v) => {
                self.set_neighbors(id, v);
                true
            },
            None => false,
        }
    }

    /// Replaces the neighbor list of `id`, creating it if needed.
    pub(crate) fn set_neighbors(&mut self, id: NodeId, v: Vec<NodeId>)
        ensures
            final(self)@ == old(self)@.with_neighbors(id, v@),
    {
        let ghost v_seq = v@;
        self.neighbor.insert(id, v);
        proof {
            assert(neighbor_view(self.neighbor@) =~= old(self)@.neighbor.insert(id, v_seq));
        }
    }

    /// Drops the neighbor list of `id`.
    pub(crate) fn drop_entry(&mut self, id: NodeId)
        ensures
            final(self)@ == old(self)@.without_entry(id),
    {
        self.neighbor.remove(&id);
        proof {
            assert(neighbor_view(self.neighbor@) =~= old(self)@.neighbor.remove(id));
        }
    }

    /// Registers `id` as a drone, once.
    pub(crate) fn register_drone(&mut self, id: NodeId)
        requires
            old(self)@.wf(),
        ensures
            final(self)@ == old(self)@.with_drone(id),
            final(self)@.wf(),
    {
        if !contains(&self.drones, id) {
            self.drones.push(id);
            proof {
                let d = old(self)@.drones;
                assert forall|i: int, j: int| 0 <= i < j < d.push(id).len() implies d.push(id)[i] != d.push(id)[j] by {
                    if j == d.len() {
                        assert(d[i] == d.push(id)[i]);
                    }
                }
            }
        }
    }

    /// Takes `id` off the drone roster.
    pub(crate) fn unregister_drone(&mut self, id: NodeId)
        requires
            old(self)@.wf(),
        ensures
            final(self)@ == old(self)@.without_drone(id),
            final(self)@.wf(),
    {
        proof {
            lemma_without_no_duplicates(self.drones@, id);
        }
        self.drones = remove_all(&self.drones, id);
    }
}

} // verus!
