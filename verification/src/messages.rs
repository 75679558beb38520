//! What the controller receives (commands from the GUI, events from nodes) and what it
//! decides to send. Payloads that the controller passes along without reading (message
//! texts, file titles and lists, whole packets) are not held here: a decision that sends
//! one refers to the payload of the command or event being handled.
use vstd::prelude::*;

use crate::error::Error;
use crate::network::{ChannelRef, NodeId, Packet, Pdr};

verus! {

/// Commands for a drone.
#[derive(Clone, Copy, Debug, PartialEq, Eq, Structural)]
pub enum DroneCommand {
    RemoveSender(NodeId),
    /// Link to the node, handing over the packet channel named.
    AddSender(NodeId, ChannelRef),
    SetPacketDropRate(Pdr),
    Crash,
}

/// Commands for a chat client.
#[derive(Clone, Copy, Debug, PartialEq, Eq, Structural)]
pub enum ChatClientCommand {
    InitFlooding,
    StartChatClient,
    RemoveSender(NodeId),
    AddSender(NodeId, ChannelRef),
    /// Send the text of the GUI command being handled to the destination.
    SendMessageTo(NodeId),
    RegisterTo(NodeId),
    GetClientList,
    LogOut,
    LogNetwork,
}

/// Commands for a media client.
#[derive(Clone, Copy, Debug, PartialEq, Eq, Structural)]
pub enum MediaClientCommand {
    InitFlooding,
    RemoveSender(NodeId),
    AddSender(NodeId, ChannelRef),
    AskFilesList(NodeId),
    /// Ask the server for the file whose title the GUI command being handled carries.
    AskForFile(NodeId),
    GetServerList,
    AskServerType(NodeId),
}

/// Commands for a communication server.
#[derive(Clone, Copy, Debug, PartialEq, Eq, Structural)]
pub enum CommunicationServerCommand {
    InitFlooding,
    AddSender(NodeId, ChannelRef),
    RemoveSender(NodeId),
    LogNetwork,
}

/// Commands for a text or media content server.
#[derive(Clone, Copy, Debug, PartialEq, Eq, Structural)]
pub enum ContentServerCommand {
    InitFlooding,
    AddSender(NodeId, ChannelRef),
    RemoveSender(NodeId),
}

/// Events reported by a drone.
pub enum DroneEvent {
    PacketSent(Packet),
    PacketDropped(Packet),
    ControllerShortcut(Packet),
}

/// Events reported by a chat client.
pub enum ChatClientEvent {
    CommunicationServerList,
    MessageReceived(NodeId, NodeId),
    SuccessfulRegistration(NodeId),
    ClientList(NodeId),
    SuccessfulLogOut,
    UnreachableClient(NodeId),
    ErrorNotRunning,
    ErrorNotRegistered,
    ControllerShortcut(Packet),
}

/// Events reported by a media client.
pub enum MediaClientEvent {
    ReceveidFloodResponse,
    RemovedSender(NodeId),
    AddedSender(NodeId),
    UnreachableNode(NodeId),
    DestinationIsDrone,
    ErrorPacketCache,
    SendError,
    ReceveidFileList(NodeId, NodeId),
    ReceveidFile(NodeId),
    ControllerShortcut(Packet),
    ServerList,
    ReceveidServerType(NodeId),
}

/// Events reported by a communication server.
pub enum CommunicationServerEvent {
    ServerStarted,
    ServerStopped,
    ClientRegistered(NodeId),
    ClientDeregistered(NodeId),
    MessageForwarded(NodeId),
    MessageReceived(NodeId),
    UnreachableClient(NodeId),
    UnreachableNode(NodeId),
    SendError,
    ControllerShortcut(Packet),
    DestinationIsDrone(NodeId),
    ErrorPacketCache,
}

/// Events reported by a text or media content server.
pub enum ContentServerEvent {
    ServerStarted,
    ServerStopped,
    MessageForwarded(NodeId),
    MessageReceived(NodeId),
    SendError,
    DestinationIsDrone(NodeId),
    ErrorPacketCache,
    ControllerShortcut(Packet),
    UnreachableNode(NodeId),
    UnreachableClient(NodeId),
}

/// Requests from the GUI.
pub enum GUICommands {
    /// Spawn a drone with this id, linked to these nodes, with this drop rate.
    Spawn(NodeId, Vec<NodeId>, Pdr),
    Crash(NodeId),
    RemoveSender(NodeId, NodeId),
    AddSender(NodeId, NodeId),
    SetPDR(NodeId, Pdr),
    /// From the first client to the second node; the text stays with the command.
    SendMessageTo(NodeId, NodeId),
    RegisterTo(NodeId, NodeId),
    GetClientList(NodeId),
    LogOut(NodeId, NodeId),
    AskForFileList(NodeId, NodeId),
    /// From the client, ask the server for a file; the title stays with the command.
    GetFile(NodeId, NodeId),
}

/// Notifications for the GUI. Each carries, beside the ids, the payload of the
/// command or event being handled where the GUI needs one.
#[derive(Clone, Copy, Debug, PartialEq, Eq, Structural)]
pub enum GUIEvents {
    PacketSent(NodeId, NodeId),
    PacketDropped(NodeId),
    MessageReceived(NodeId, NodeId),
    ClientList(NodeId),
    FileList(NodeId, NodeId),
    Spawn(NodeId),
    Crash(NodeId),
    RemoveSender(NodeId, NodeId),
    AddSender(NodeId, NodeId),
}

/// What to do when a forwarded packet cannot be delivered.
#[derive(Clone, Copy, Debug, PartialEq, Eq, Structural)]
pub enum Delivery {
    /// Ignore the failure.
    Lenient,
    /// Treat the failure as fatal.
    Strict,
}

/// One thing the controller sends or starts.
#[derive(Clone, Copy, Debug, PartialEq, Eq, Structural)]
pub enum Action {
    /// Send on the command channel of the drone. For `Crash` the drone's channels are
    /// taken out of the registry first and the command goes out on the removed one.
    Drone(NodeId, DroneCommand),
    ChatClient(NodeId, ChatClientCommand),
    MediaClient(NodeId, MediaClientCommand),
    CommunicationServer(NodeId, CommunicationServerCommand),
    TextServer(NodeId, ContentServerCommand),
    MediaServer(NodeId, ContentServerCommand),
    Gui(GUIEvents),
    /// Forward the packet of the event being handled on the channel named.
    Forward(ChannelRef, Delivery),
    /// Build a drone with this id and drop rate from the factory with this index, linked
    /// to the nodes its spawn request names; its channels join the drone registry.
    CreateDrone(NodeId, usize, Pdr),
    /// Ask every client and server to flood the network again.
    GlobalFlooding,
}

/// What follows a send once it went through.
#[derive(Clone, Copy, Debug, PartialEq, Eq, Structural)]
pub enum FollowUp {
    Nothing,
    Flood,
    NotifyAndFlood(GUIEvents),
}

/// An action, and what to do after it when it succeeds.
#[derive(Clone, Copy, Debug, PartialEq, Eq, Structural)]
pub struct Dispatch {
    pub action: Action,
    pub on_success: FollowUp,
}

/// Why a GUI request was turned down.
#[derive(Clone, Copy, Debug, PartialEq, Eq, Structural)]
pub enum Rejection {
    Invalid(Error),
    DroneAlreadyExists(NodeId),
    PdrOutOfRange,
}

/// Result of a GUI request: what was dispatched, and why it stopped if it did.
pub struct GuiOutcome {
    pub dispatches: Vec<Dispatch>,
    pub rejection: Option<Rejection>,
}

/// The dispatch alone when `cond` holds, else nothing.
pub open spec fn sent_if(cond: bool, d: Dispatch) -> Seq<Dispatch> {
    if cond {
        seq![d]
    } else {
        Seq::empty()
    }
}

/// A list holding one dispatch.
pub fn one(d: Dispatch) -> (r: Vec<Dispatch>)
    ensures
        r@ == seq![d],
{
    let mut r: Vec<Dispatch> = Vec::new();
    r.push(d);
    r
}

/// The dispatch alone when `cond` holds, else nothing.
pub fn send_if(cond: bool, d: Dispatch) -> (r: Vec<Dispatch>)
    ensures
        r@ == sent_if(cond, d),
{
    if cond {
        one(d)
    } else {
        Vec::new()
    }
}

/// A dispatch with nothing after it.
pub open spec fn plain(a: Action) -> Dispatch {
    Dispatch { action: a, on_success: FollowUp::Nothing }
}

/// Builds a dispatch with nothing after it.
pub fn plain_dispatch(a: Action) -> (d: Dispatch)
    ensures
        d == plain(a),
{
    Dispatch { action: a, on_success: FollowUp::Nothing }
}

} // verus!
