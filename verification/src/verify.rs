//! The topology rules: which links may be added or removed.
use vstd::prelude::*;

use crate::controller::{ControllerView, SimulationController};
use crate::error::Error;
use crate::network::{NodeId, NodeKind, NodeType};

verus! {

/// Drone if registered as one, else client if registered as a chat or media client,
/// else server.
pub open spec fn spec_node_type(s: ControllerView, id: NodeId) -> NodeType {
    if s.drones.contains(id) {
        NodeType::Drone
    } else if s.cclients.contains(id) || s.mclients.contains(id) {
        NodeType::Client
    } else {
        NodeType::Server
    }
}

pub open spec fn spec_check_drone_existence(s: ControllerView, id: NodeId) -> Result<(), Error> {
    if s.drones.contains(id) {
        Ok(())
    } else {
        Err(Error::DroneNotFound(id))
    }
}

/// The fewest neighbors a node of this type may keep.
pub open spec fn min_links(t: NodeType) -> nat {
    match t {
        NodeType::Client => 1,
        NodeType::Drone => 1,
        NodeType::Server => 2,
    }
}

/// A node may lose a link when it has an entry and keeps its minimum afterwards:
/// a client must have exactly two neighbors, a drone more than one, a server more
/// than two.
pub open spec fn spec_check_remove(s: ControllerView, id: NodeId) -> Result<(), Error> {
    if !s.has_entry(id) {
        Err(Error::HasNoNeighbor(id))
    } else {
        let n = s.neighbor[id].len();
        match spec_node_type(s, id) {
            NodeType::Client => if n == 2 { Ok(()) } else { Err(Error::ClientRemove) },
            NodeType::Drone => if n > 1 { Ok(()) } else { Err(Error::DroneRemove) },
            NodeType::Server => if n > 2 { Ok(()) } else { Err(Error::ServerRemove) },
        }
    }
}

/// A client may gain a link only when it has an entry with exactly one neighbor;
/// drones and servers always may.
pub open spec fn spec_check_add(s: ControllerView, id: NodeId) -> Result<(), Error> {
    match spec_node_type(s, id) {
        NodeType::Client => if !s.has_entry(id) {
            Err(Error::HasNoNeighbor(id))
        } else if s.neighbor[id].len() == 1 {
            Ok(())
        } else {
            Err(Error::ClientAdd)
        },
        _ => Ok(()),
    }
}

/// With `not`, succeeds when `neighbor` is absent from the list; without, when it is
/// present.
pub open spec fn spec_is_a_neighbor(list: Seq<NodeId>, neighbor: NodeId, drone: NodeId, not: bool) -> Result<(), Error> {
    if not {
        if list.contains(neighbor) {
            Err(Error::IsNeighbor(neighbor, drone))
        } else {
            Ok(())
        }
    } else {
        if list.contains(neighbor) {
            Ok(())
        } else {
            Err(Error::NotNeighbor(neighbor, drone))
        }
    }
}

impl SimulationController {
    pub fn check_drone_existence(&self, drone_id: NodeId) -> (r: Result<(), Error>)
        ensures
            r == spec_check_drone_existence(self@, drone_id),
    {
        if self.is_in(NodeKind::Drone, drone_id) {
            Ok(())
        } else {
            Err(Error::DroneNotFound(drone_id))
        }
    }

    /// The neighbor list of the node, or `HasNoNeighbor` when it has none.
    pub fn has_neighbors(&self, node_id: NodeId) -> (r: Result<&Vec<NodeId>, Error>)
        ensures
            match r {
                Ok(v) => self@.has_entry(node_id) && v@ == self@.neighbor[node_id],
                Err(e) => !self@.has_entry(node_id) && e == Error::HasNoNeighbor(node_id),
            },
    {
        match self.neighbors(node_id) {
            Some(v) => Ok(v),
            None => Err(Error::HasNoNeighbor(node_id)),
        }
    }

    pub fn get_node_type(&self, node_id: NodeId) -> (r: NodeType)
        ensures
            r == spec_node_type(self@, node_id),
    {
        if self.is_in(NodeKind::Drone, node_id) {
            NodeType::Drone
        } else if self.is_in(NodeKind::ChatClient, node_id) || self.is_in(NodeKind::MediaClient, node_id) {
            NodeType::Client
        } else {
            NodeType::Server
        }
    }

    pub fn check_remove(&self, node_id: NodeId) -> (r: Result<(), Error>)
        ensures
            r == spec_check_remove(self@, node_id),
    {
        let node_type = self.get_node_type(node_id);
        match self.has_neighbors(node_id) {
            Err(e) => Err(e),
            Ok(vec) => match node_type {
                NodeType::Client => if vec.len() == 2 { Ok(()) } else { Err(Error::ClientRemove) },
                NodeType::Drone => if vec.len() > 1 { Ok(()) } else { Err(Error::DroneRemove) },
                NodeType::Server => if vec.len() > 2 { Ok(()) } else { Err(Error::ServerRemove) },
            },
        }
    }

    pub fn check_add(&self, node_id: NodeId) -> (r: Result<(), Error>)
        ensures
            r == spec_check_add(self@, node_id),
    {
        let node_type = self.get_node_type(node_id);
        match node_type {
            NodeType::Client => match self.has_neighbors(node_id) {
                Ok(vec) => if vec.len() == 1 { Ok(()) } else { Err(Error::ClientAdd) },
                Err(e) => Err(e),
            },
            NodeType::Drone | NodeType::Server => Ok(()),
        }
    }
}

/// Checks that `neighbor` is (or, with `not`, is not) in the neighbor list of `drone`.
pub fn is_a_neighbor(neighbor_vec: &[NodeId], neighbor: NodeId, drone: NodeId, not: bool) -> (r: Result<(), Error>)
    ensures
        r == spec_is_a_neighbor(neighbor_vec@, neighbor, drone, not),
{
    let mut found = false;
    let mut i: usize = 0;
    while i < neighbor_vec.len()
        invariant
            i <= neighbor_vec@.len(),
            found == exists|j: int| 0 <= j < i && neighbor_vec@[j] == neighbor,
        decreases neighbor_vec@.len() - i,
    {
        if neighbor_vec[i] == neighbor {
            found = true;
        }
        i = i + 1;
    }
    if not {
        if found { Err(Error::IsNeighbor(neighbor, drone)) } else { Ok(()) }
    } else {
        if found { Ok(()) } else { Err(Error::NotNeighbor(neighbor, drone)) }
    }
}

} // verus!
