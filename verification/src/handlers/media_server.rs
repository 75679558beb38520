//! Commands for media content servers.
use vstd::prelude::*;

use crate::controller::{ControllerView, SimulationController};
use crate::handlers::routing::shortcut_step;
use crate::messages::{
    plain, send_if, sent_if, Action, ContentServerCommand, ContentServerEvent, Delivery, Dispatch, FollowUp,
    GUIEvents,
};
use crate::network::{NodeId, NodeKind};

verus! {

/// Effect of a command for media server `media_server`: nothing unless it is registered
/// as one. A link change edits its neighbor list when it has one and, once delivered, is
/// reported to the GUI and followed by a global flooding.
pub open spec fn media_server_command_step(s: ControllerView, media_server: NodeId, cmd: ContentServerCommand) -> (ControllerView, Seq<Dispatch>) {
    if !s.media_servers.contains(media_server) {
        (s, Seq::empty())
    } else {
        match cmd {
            ContentServerCommand::AddSender(n, _) => (
                s.linked(media_server, n),
                sent_if(s.has_entry(media_server), Dispatch {
                    action: Action::MediaServer(media_server, cmd),
                    on_success: FollowUp::NotifyAndFlood(GUIEvents::AddSender(media_server, n)),
                }),
            ),
            ContentServerCommand::RemoveSender(n) => (
                s.unlinked(media_server, n),
                sent_if(s.has_entry(media_server), Dispatch {
                    action: Action::MediaServer(media_server, cmd),
                    on_success: FollowUp::NotifyAndFlood(GUIEvents::RemoveSender(media_server, n)),
                }),
            ),
            ContentServerCommand::InitFlooding => (s, seq![plain(Action::MediaServer(media_server, cmd))]),
        }
    }
}

/// Reaction to a media-server event: a packet handed over is delivered as
/// `shortcut_step` says (a failed delivery being ignored); the other events call for
/// nothing.
pub open spec fn media_server_event_step(s: ControllerView, event: ContentServerEvent) -> Seq<Dispatch> {
    match event {
        ContentServerEvent::ControllerShortcut(p) => shortcut_step(s, p, Delivery::Lenient),
        _ => Seq::empty(),
    }
}

impl SimulationController {
    pub fn handle_media_server_event(&self, event: ContentServerEvent) -> (out: Vec<Dispatch>)
        ensures
            out@ == media_server_event_step(self@, event),
    {
        match event {
            ContentServerEvent::ControllerShortcut(packet) => self.forward_shortcut(&packet, Delivery::Lenient),
            _ => Vec::new(),
        }
    }


    pub fn handle_media_server_command(&mut self, media_server: &NodeId, command: ContentServerCommand) -> (out: Vec<Dispatch>)
        requires
            old(self)@.wf(),
        ensures
            final(self)@.wf(),
            final(self)@ == media_server_command_step(old(self)@, *media_server, command).0,
            out@ == media_server_command_step(old(self)@, *media_server, command).1,
    {
        let m = *media_server;
        if !self.is_in(NodeKind::MediaServer, m) {
            return Vec::new();
        }
        match command {
            ContentServerCommand::AddSender(node_id, _) => {
                let had = self.add_link(m, node_id);
                send_if(had, Dispatch {
                    action: Action::MediaServer(m, command),
                    on_success: FollowUp::NotifyAndFlood(GUIEvents::AddSender(m, node_id)),
                })
            },
            ContentServerCommand::RemoveSender(node_id) => {
                let had = self.remove_link(m, node_id);
                send_if(had, Dispatch {
                    action: Action::MediaServer(m, command),
                    on_success: FollowUp::NotifyAndFlood(GUIEvents::RemoveSender(m, node_id)),
                })
            },
            ContentServerCommand::InitFlooding => send_if(true, Dispatch { action: Action::MediaServer(m, command), on_success: FollowUp::Nothing }),
        }
    }
}

} // verus!
