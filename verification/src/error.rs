//! Errors of the topology checks and of user input.
use std::num::ParseFloatError;
use vstd::prelude::*;

use crate::network::NodeId;

verus! {

#[verifier::external_type_specification]
#[verifier::external_body]
pub struct ExParseFloatError(ParseFloatError);

/// Why a change of the topology was refused.
#[derive(Clone, Copy, Debug, PartialEq, Eq, Structural)]
pub enum Error {
    DroneNotFound(NodeId),
    NotNeighbor(NodeId, NodeId),
    IsNeighbor(NodeId, NodeId),
    HasNoNeighbor(NodeId),
    ClientOnClient,
    ClientRemove,
    ServerRemove,
    DroneRemove,
    ClientAdd,
    MissingFactory(NodeId),
    NoSender(NodeId),
}

/// Why a value typed by the user was refused.
#[derive(Debug)]
pub enum SimulationControllerError {
    DroneNotFound(NodeId),
    InvalidNodeId,
    NotNeighbor(NodeId, NodeId),
    IsNeighbor(NodeId, NodeId),
    HasNoNeighbor(NodeId),
    PacketDropRateOutOfRange,
    InvalidPacketDropRate(ParseFloatError),
}

} // verus!
