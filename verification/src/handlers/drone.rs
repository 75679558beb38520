//! Commands for drones and events from drones.
use vstd::prelude::*;

use crate::controller::{ControllerView, SimulationController};
use crate::handlers::routing::shortcut_step;
use crate::messages::{
    one, plain, plain_dispatch, send_if, sent_if, Action, Delivery, Dispatch, DroneCommand, DroneEvent,
    FollowUp, GUIEvents,
};
use crate::network::{NodeId, NodeKind};

verus! {

/// Effect of a command for drone `drone`: nothing unless `drone` is registered as a
/// drone. A link change edits its neighbor list (when it has one) and, once delivered,
/// is reported to the GUI and followed by a global flooding; a crash takes the drone off
/// the roster and the neighbor map.
pub open spec fn drone_command_step(s: ControllerView, drone: NodeId, cmd: DroneCommand) -> (ControllerView, Seq<Dispatch>) {
    if !s.drones.contains(drone) {
        (s, Seq::empty())
    } else {
        match cmd {
            DroneCommand::RemoveSender(n) => (
                s.unlinked(drone, n),
                sent_if(s.has_entry(drone), Dispatch {
                    action: Action::Drone(drone, cmd),
                    on_success: FollowUp::NotifyAndFlood(GUIEvents::RemoveSender(drone, n)),
                }),
            ),
            DroneCommand::AddSender(n, _) => (
                s.linked(drone, n),
                sent_if(s.has_entry(drone), Dispatch {
                    action: Action::Drone(drone, cmd),
                    on_success: FollowUp::NotifyAndFlood(GUIEvents::AddSender(drone, n)),
                }),
            ),
            DroneCommand::SetPacketDropRate(_) => (s, seq![plain(Action::Drone(drone, cmd))]),
            DroneCommand::Crash => (
                s.without_drone(drone).without_entry(drone),
                seq![plain(Action::Drone(drone, cmd))],
            ),
        }
    }
}

/// Reaction to a drone event. A sent packet is shown to the GUI as a hop from the node
/// at the current position of its route to the next one, when both exist, and a refusal
/// for any reason but a drop also starts a global flooding; a dropped packet is shown with
/// the node at the current position; a packet handed over is delivered as
/// `shortcut_step` says, a failed delivery being ignored.
pub open spec fn drone_event_step(s: ControllerView, event: DroneEvent) -> Seq<Dispatch> {
    match event {
        DroneEvent::PacketSent(p) => {
            let i = p.routing_header.hop_index as int;
            match (p.hop(i), p.hop(i + 1)) {
                (Some(src), Some(dest)) => seq![plain(Action::Gui(GUIEvents::PacketSent(src, dest)))]
                    + sent_if(p.is_routing_nack(), plain(Action::GlobalFlooding)),
                _ => Seq::empty(),
            }
        },
        DroneEvent::PacketDropped(p) => match p.hop(p.routing_header.hop_index as int) {
            Some(src) => seq![plain(Action::Gui(GUIEvents::PacketDropped(src)))],
            None => Seq::empty(),
        },
        DroneEvent::ControllerShortcut(p) => shortcut_step(s, p, Delivery::Lenient),
    }
}

impl SimulationController {
    pub fn handle_drone_event(&self, drone_event: DroneEvent) -> (out: Vec<Dispatch>)
        ensures
            out@ == drone_event_step(self@, drone_event),
    {
        match drone_event {
            DroneEvent::PacketSent(packet) => {
                let i = packet.routing_header.hop_index;
                match packet.hop_at(i) {
                    Some(src) => match packet.hop_at(i + 1) {
                        Some(dest) => {
                            let mut out = one(plain_dispatch(Action::Gui(GUIEvents::PacketSent(src, dest))));
                            let mut more = send_if(packet.routing_nack(), plain_dispatch(Action::GlobalFlooding));
                            out.append(&mut more);
                            out
                        },
                        None => Vec::new(),
                    },
                    None => Vec::new(),
                }
            },
            DroneEvent::PacketDropped(packet) => match packet.hop_at(packet.routing_header.hop_index) {
                Some(src) => one(plain_dispatch(Action::Gui(GUIEvents::PacketDropped(src)))),
                None => Vec::new(),
            },
            DroneEvent::ControllerShortcut(packet) => self.forward_shortcut(&packet, Delivery::Lenient),
        }
    }


    pub fn handle_drone_command(&mut self, drone: &NodeId, drone_command: DroneCommand) -> (out: Vec<Dispatch>)
        requires
            old(self)@.wf(),
        ensures
            final(self)@.wf(),
            final(self)@ == drone_command_step(old(self)@, *drone, drone_command).0,
            out@ == drone_command_step(old(self)@, *drone, drone_command).1,
    {
        let d = *drone;
        if !self.is_in(NodeKind::Drone, d) {
            return Vec::new();
        }
        match drone_command {
            DroneCommand::RemoveSender(node_id) => {
                if self.remove_link(d, node_id) {
                    one(Dispatch {
                        action: Action::Drone(d, drone_command),
                        on_success: FollowUp::NotifyAndFlood(GUIEvents::RemoveSender(d, node_id)),
                    })
                } else {
                    Vec::new()
                }
            },
            DroneCommand::AddSender(node_id, _) => {
                if self.add_link(d, node_id) {
                    one(Dispatch {
                        action: Action::Drone(d, drone_command),
                        on_success: FollowUp::NotifyAndFlood(GUIEvents::AddSender(d, node_id)),
                    })
                } else {
                    Vec::new()
                }
            },
            DroneCommand::SetPacketDropRate(_) => one(plain_dispatch(Action::Drone(d, drone_command))),
            DroneCommand::Crash => {
                self.unregister_drone(d);
                self.drop_entry(d);
                one(plain_dispatch(Action::Drone(d, drone_command)))
            },
        }
    }
}

} // verus!
