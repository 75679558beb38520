//! Commands for chat clients.
use vstd::prelude::*;

use crate::controller::{ControllerView, SimulationController};
use crate::handlers::routing::shortcut_step;
use crate::messages::{
    one, plain, plain_dispatch, send_if, sent_if, Action, ChatClientCommand, ChatClientEvent, Delivery,
    Dispatch, FollowUp, GUIEvents,
};
use crate::network::{NodeId, NodeKind};

verus! {

/// Effect of a command for chat client `chat_client`. It is sent only to a registered
/// chat client. A link change edits the client's neighbor list when it has one (a link to
/// another client, chat or media, is refused outright) and, once delivered, is followed by a global
/// flooding. Registration is sent only for a registered communication server.
pub open spec fn chat_client_command_step(s: ControllerView, chat_client: NodeId, cmd: ChatClientCommand) -> (ControllerView, Seq<Dispatch>) {
    let registered = s.cclients.contains(chat_client);
    let relink = Dispatch { action: Action::ChatClient(chat_client, cmd), on_success: FollowUp::Flood };
    match cmd {
        ChatClientCommand::RemoveSender(n) => (
            s.unlinked(chat_client, n),
            sent_if(s.has_entry(chat_client) && registered, relink),
        ),
        ChatClientCommand::AddSender(n, _) => if s.cclients.contains(n) || s.mclients.contains(n) {
            (s, Seq::empty())
        } else {
            (s.linked(chat_client, n), sent_if(s.has_entry(chat_client) && registered, relink))
        },
        ChatClientCommand::RegisterTo(server) => (
            s,
            sent_if(s.comm_servers.contains(server) && registered, plain(Action::ChatClient(chat_client, cmd))),
        ),
        _ => (s, sent_if(registered, plain(Action::ChatClient(chat_client, cmd)))),
    }
}

/// Reaction to a chat-client event: a received message and a client list go to the GUI,
/// a packet handed over is delivered as `shortcut_step` says (a failed delivery being
/// ignored), and the other events call for nothing.
pub open spec fn chat_client_event_step(s: ControllerView, event: ChatClientEvent) -> Seq<Dispatch> {
    match event {
        ChatClientEvent::MessageReceived(src, dest) => seq![plain(Action::Gui(GUIEvents::MessageReceived(src, dest)))],
        ChatClientEvent::ClientList(client) => seq![plain(Action::Gui(GUIEvents::ClientList(client)))],
        ChatClientEvent::ControllerShortcut(p) => shortcut_step(s, p, Delivery::Lenient),
        _ => Seq::empty(),
    }
}

impl SimulationController {
    pub fn handle_chat_client_event(&self, event: ChatClientEvent) -> (out: Vec<Dispatch>)
        ensures
            out@ == chat_client_event_step(self@, event),
    {
        match event {
            ChatClientEvent::MessageReceived(src, dest) => one(plain_dispatch(Action::Gui(GUIEvents::MessageReceived(src, dest)))),
            ChatClientEvent::ClientList(client) => one(plain_dispatch(Action::Gui(GUIEvents::ClientList(client)))),
            ChatClientEvent::ControllerShortcut(packet) => self.forward_shortcut(&packet, Delivery::Lenient),
            _ => Vec::new(),
        }
    }


    pub fn handle_chat_client_command(&mut self, chat_client: &NodeId, command: ChatClientCommand) -> (out: Vec<Dispatch>)
        requires
            old(self)@.wf(),
        ensures
            final(self)@.wf(),
            final(self)@ == chat_client_command_step(old(self)@, *chat_client, command).0,
            out@ == chat_client_command_step(old(self)@, *chat_client, command).1,
    {
        let c = *chat_client;
        let relink = Dispatch { action: Action::ChatClient(c, command), on_success: FollowUp::Flood };
        let asis = Dispatch { action: Action::ChatClient(c, command), on_success: FollowUp::Nothing };
        match command {
            ChatClientCommand::RemoveSender(node_id) => {
                let had = self.remove_link(c, node_id);
                let registered = self.is_in(NodeKind::ChatClient, c);
                send_if(had && registered, relink)
            },
            ChatClientCommand::AddSender(node_id, _) => {
                if self.is_in(NodeKind::ChatClient, node_id) || self.is_in(NodeKind::MediaClient, node_id) {
                    Vec::new()
                } else {
                    let had = self.add_link(c, node_id);
                    let registered = self.is_in(NodeKind::ChatClient, c);
                    send_if(had && registered, relink)
                }
            },
            ChatClientCommand::RegisterTo(server_id) => {
                let ok = self.is_in(NodeKind::CommunicationServer, server_id) && self.is_in(NodeKind::ChatClient, c);
                send_if(ok, asis)
            },
            _ => send_if(self.is_in(NodeKind::ChatClient, c), asis),
        }
    }
}

} // verus!
