//! Commands for communication servers.
use vstd::prelude::*;

use crate::controller::{ControllerView, SimulationController};
use crate::handlers::routing::{deliverable_shortcut, shortcut_step};
use crate::messages::{
    plain, send_if, sent_if, Action, CommunicationServerCommand, CommunicationServerEvent, Delivery,
    Dispatch, FollowUp, GUIEvents,
};
use crate::network::{NodeId, NodeKind};

verus! {

/// Effect of a command for communication server `comm_server`: nothing unless it is
/// registered as one. A link change edits its neighbor list when it has one and, once
/// delivered, is reported to the GUI and followed by a global flooding.
pub open spec fn communication_server_command_step(s: ControllerView, comm_server: NodeId, cmd: CommunicationServerCommand) -> (ControllerView, Seq<Dispatch>) {
    if !s.comm_servers.contains(comm_server) {
        (s, Seq::empty())
    } else {
        match cmd {
            CommunicationServerCommand::AddSender(n, _) => (
                s.linked(comm_server, n),
                sent_if(s.has_entry(comm_server), Dispatch {
                    action: Action::CommunicationServer(comm_server, cmd),
                    on_success: FollowUp::NotifyAndFlood(GUIEvents::AddSender(comm_server, n)),
                }),
            ),
            CommunicationServerCommand::RemoveSender(n) => (
                s.unlinked(comm_server, n),
                sent_if(s.has_entry(comm_server), Dispatch {
                    action: Action::CommunicationServer(comm_server, cmd),
                    on_success: FollowUp::NotifyAndFlood(GUIEvents::RemoveSender(comm_server, n)),
                }),
            ),
            _ => (s, seq![plain(Action::CommunicationServer(comm_server, cmd))]),
        }
    }
}

/// Reaction to a communication-server event: a packet handed over is delivered as
/// `shortcut_step` says (a failed delivery being fatal); the other events call for nothing.
pub open spec fn communication_server_event_step(s: ControllerView, event: CommunicationServerEvent) -> Seq<Dispatch> {
    match event {
        CommunicationServerEvent::ControllerShortcut(p) => shortcut_step(s, p, Delivery::Strict),
        _ => Seq::empty(),
    }
}

/// The event is not a message fragment handed over for a known node.
pub open spec fn communication_server_event_ok(s: ControllerView, event: CommunicationServerEvent) -> bool {
    match event {
        CommunicationServerEvent::ControllerShortcut(p) => deliverable_shortcut(s, p),
        _ => true,
    }
}

impl SimulationController {
    pub fn handle_communication_server_event(&self, event: CommunicationServerEvent) -> (out: Vec<Dispatch>)
        requires
            communication_server_event_ok(self@, event),
        ensures
            out@ == communication_server_event_step(self@, event),
    {
        match event {
            CommunicationServerEvent::ControllerShortcut(packet) => self.forward_shortcut(&packet, Delivery::Strict),
            _ => Vec::new(),
        }
    }


    pub fn handle_communication_server_command(&mut self, comm_server: &NodeId, command: CommunicationServerCommand) -> (out: Vec<Dispatch>)
        requires
            old(self)@.wf(),
        ensures
            final(self)@.wf(),
            final(self)@ == communication_server_command_step(old(self)@, *comm_server, command).0,
            out@ == communication_server_command_step(old(self)@, *comm_server, command).1,
    {
        let c = *comm_server;
        if !self.is_in(NodeKind::CommunicationServer, c) {
            return Vec::new();
        }
        match command {
            CommunicationServerCommand::AddSender(node_id, _) => {
                let had = self.add_link(c, node_id);
                send_if(had, Dispatch {
                    action: Action::CommunicationServer(c, command),
                    on_success: FollowUp::NotifyAndFlood(GUIEvents::AddSender(c, node_id)),
                })
            },
            CommunicationServerCommand::RemoveSender(node_id) => {
                let had = self.remove_link(c, node_id);
                send_if(had, Dispatch {
                    action: Action::CommunicationServer(c, command),
                    on_success: FollowUp::NotifyAndFlood(GUIEvents::RemoveSender(c, node_id)),
                })
            },
            _ => send_if(true, Dispatch { action: Action::CommunicationServer(c, command), on_success: FollowUp::Nothing }),
        }
    }
}

} // verus!
