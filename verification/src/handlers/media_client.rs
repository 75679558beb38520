//! Commands for media clients.
use vstd::prelude::*;

use crate::controller::{ControllerView, SimulationController};
use crate::handlers::routing::{deliverable_shortcut, shortcut_step};
use crate::messages::{
    one, plain, plain_dispatch, send_if, sent_if, Action, Delivery, Dispatch, FollowUp, GUIEvents,
    MediaClientCommand, MediaClientEvent,
};
use crate::network::{NodeId, NodeKind};

verus! {

/// Effect of a command for media client `media_client`. It is sent only to a registered
/// media client. A link change edits the client's neighbor list when it has one (a link
/// to another client, chat or media, is refused outright) and, once delivered, is reported to the
/// GUI and followed by a global flooding.
pub open spec fn media_client_command_step(s: ControllerView, media_client: NodeId, cmd: MediaClientCommand) -> (ControllerView, Seq<Dispatch>) {
    let registered = s.mclients.contains(media_client);
    match cmd {
        MediaClientCommand::RemoveSender(n) => (
            s.unlinked(media_client, n),
            sent_if(s.has_entry(media_client) && registered, Dispatch {
                action: Action::MediaClient(media_client, cmd),
                on_success: FollowUp::NotifyAndFlood(GUIEvents::RemoveSender(media_client, n)),
            }),
        ),
        MediaClientCommand::AddSender(n, _) => if s.cclients.contains(n) || s.mclients.contains(n) {
            (s, Seq::empty())
        } else {
            (
                s.linked(media_client, n),
                sent_if(s.has_entry(media_client) && registered, Dispatch {
                    action: Action::MediaClient(media_client, cmd),
                    on_success: FollowUp::NotifyAndFlood(GUIEvents::AddSender(media_client, n)),
                }),
            )
        },
        _ => (s, sent_if(registered, plain(Action::MediaClient(media_client, cmd)))),
    }
}

/// Reaction to a media-client event: a received file list goes to the GUI, a packet
/// handed over is delivered as `shortcut_step` says (a failed delivery being fatal), and
/// the other events call for nothing.
pub open spec fn media_client_event_step(s: ControllerView, event: MediaClientEvent) -> Seq<Dispatch> {
    match event {
        MediaClientEvent::ReceveidFileList(server, dest) => seq![plain(Action::Gui(GUIEvents::FileList(server, dest)))],
        MediaClientEvent::ControllerShortcut(p) => shortcut_step(s, p, Delivery::Strict),
        _ => Seq::empty(),
    }
}

/// The event is not a message fragment handed over for a known node.
pub open spec fn media_client_event_ok(s: ControllerView, event: MediaClientEvent) -> bool {
    match event {
        MediaClientEvent::ControllerShortcut(p) => deliverable_shortcut(s, p),
        _ => true,
    }
}

impl SimulationController {
    pub fn handle_media_client_event(&self, event: MediaClientEvent) -> (out: Vec<Dispatch>)
        requires
            media_client_event_ok(self@, event),
        ensures
            out@ == media_client_event_step(self@, event),
    {
        match event {
            MediaClientEvent::ReceveidFileList(server, dest) => one(plain_dispatch(Action::Gui(GUIEvents::FileList(server, dest)))),
            MediaClientEvent::ControllerShortcut(packet) => self.forward_shortcut(&packet, Delivery::Strict),
            _ => Vec::new(),
        }
    }


    pub fn handle_media_client_command(&mut self, media_client: &NodeId, command: MediaClientCommand) -> (out: Vec<Dispatch>)
        requires
            old(self)@.wf(),
        ensures
            final(self)@.wf(),
            final(self)@ == media_client_command_step(old(self)@, *media_client, command).0,
            out@ == media_client_command_step(old(self)@, *media_client, command).1,
    {
        let c = *media_client;
        match command {
            MediaClientCommand::RemoveSender(node_id) => {
                let had = self.remove_link(c, node_id);
                let registered = self.is_in(NodeKind::MediaClient, c);
                send_if(had && registered, Dispatch {
                    action: Action::MediaClient(c, command),
                    on_success: FollowUp::NotifyAndFlood(GUIEvents::RemoveSender(c, node_id)),
                })
            },
            MediaClientCommand::AddSender(node_id, _) => {
                if self.is_in(NodeKind::ChatClient, node_id) || self.is_in(NodeKind::MediaClient, node_id) {
                    Vec::new()
                } else {
                    let had = self.add_link(c, node_id);
                    let registered = self.is_in(NodeKind::MediaClient, c);
                    send_if(had && registered, Dispatch {
                        action: Action::MediaClient(c, command),
                        on_success: FollowUp::NotifyAndFlood(GUIEvents::AddSender(c, node_id)),
                    })
                }
            },
            _ => send_if(
                self.is_in(NodeKind::MediaClient, c),
                Dispatch { action: Action::MediaClient(c, command), on_success: FollowUp::Nothing },
            ),
        }
    }
}

} // verus!
