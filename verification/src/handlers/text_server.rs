//! Commands for text content servers.
use vstd::prelude::*;

use crate::controller::{ControllerView, SimulationController};
use crate::handlers::routing::{deliverable_shortcut, shortcut_step};
use crate::messages::{
    plain, send_if, sent_if, Action, ContentServerCommand, ContentServerEvent, Delivery, Dispatch, FollowUp,
};
use crate::network::{NodeId, NodeKind};

verus! {

/// Effect of a command for text server `text_server`: nothing unless it is registered as
/// one. A link change edits its neighbor list when it has one and, once delivered, is
/// followed by a global flooding.
pub open spec fn text_server_command_step(s: ControllerView, text_server: NodeId, cmd: ContentServerCommand) -> (ControllerView, Seq<Dispatch>) {
    if !s.text_servers.contains(text_server) {
        (s, Seq::empty())
    } else {
        let relink = Dispatch { action: Action::TextServer(text_server, cmd), on_success: FollowUp::Flood };
        match cmd {
            ContentServerCommand::AddSender(n, _) => (s.linked(text_server, n), sent_if(s.has_entry(text_server), relink)),
            ContentServerCommand::RemoveSender(n) => (s.unlinked(text_server, n), sent_if(s.has_entry(text_server), relink)),
            ContentServerCommand::InitFlooding => (s, seq![plain(Action::TextServer(text_server, cmd))]),
        }
    }
}

/// Reaction to a text-server event: a packet handed over is delivered as
/// `shortcut_step` says (a failed delivery being fatal); the other events call for nothing.
pub open spec fn text_server_event_step(s: ControllerView, event: ContentServerEvent) -> Seq<Dispatch> {
    match event {
        ContentServerEvent::ControllerShortcut(p) => shortcut_step(s, p, Delivery::Strict),
        _ => Seq::empty(),
    }
}

/// The event is not a message fragment handed over for a known node.
pub open spec fn text_server_event_ok(s: ControllerView, event: ContentServerEvent) -> bool {
    match event {
        ContentServerEvent::ControllerShortcut(p) => deliverable_shortcut(s, p),
        _ => true,
    }
}

impl SimulationController {
    pub fn process_text_server_event(&self, event: ContentServerEvent) -> (out: Vec<Dispatch>)
        requires
            text_server_event_ok(self@, event),
        ensures
            out@ == text_server_event_step(self@, event),
    {
        match event {
            ContentServerEvent::ControllerShortcut(packet) => self.forward_shortcut(&packet, Delivery::Strict),
            _ => Vec::new(),
        }
    }


    pub fn handle_text_server_command(&mut self, text_server: &NodeId, command: ContentServerCommand) -> (out: Vec<Dispatch>)
        requires
            old(self)@.wf(),
        ensures
            final(self)@.wf(),
            final(self)@ == text_server_command_step(old(self)@, *text_server, command).0,
            out@ == text_server_command_step(old(self)@, *text_server, command).1,
    {
        let t = *text_server;
        if !self.is_in(NodeKind::TextServer, t) {
            return Vec::new();
        }
        let relink = Dispatch { action: Action::TextServer(t, command), on_success: FollowUp::Flood };
        match command {
            ContentServerCommand::AddSender(node_id, _) => {
                let had = self.add_link(t, node_id);
                send_if(had, relink)
            },
            ContentServerCommand::RemoveSender(node_id) => {
                let had = self.remove_link(t, node_id);
                send_if(had, relink)
            },
            ContentServerCommand::InitFlooding => send_if(true, Dispatch { action: Action::TextServer(t, command), on_success: FollowUp::Nothing }),
        }
    }
}

} // verus!
