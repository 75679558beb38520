//! Requests from the GUI.
use vstd::prelude::*;

use crate::controller::{ControllerView, SimulationController};
use crate::error::Error;
use crate::handlers::chat_client::chat_client_command_step;
use crate::handlers::communication_server::communication_server_command_step;
use crate::handlers::drone::drone_command_step;
use crate::handlers::media_client::media_client_command_step;
use crate::handlers::media_server::media_server_command_step;
use crate::handlers::text_server::text_server_command_step;
use crate::messages::{
    plain, plain_dispatch, Action, ChatClientCommand, CommunicationServerCommand, ContentServerCommand,
    Dispatch, DroneCommand, GUICommands, GUIEvents, GuiOutcome, MediaClientCommand, Rejection,
};
use crate::network::{spec_pdr_in_range, ChannelRef, NodeId, NodeKind, Pdr};
use crate::random::random_below;
use crate::support::{
    add_sender_step, addable, crash_step, remove_sender_step, spawn_step, spawnable, DRONE_FACTORIES,
};
use crate::verify::{spec_check_add, spec_check_remove};

verus! {

/// State, dispatches and, if the request was turned down, why.
pub type GuiStep = (ControllerView, Seq<Dispatch>, Option<Rejection>);

/// The error of the first node of `ns` that may not gain a link.
pub open spec fn first_add_failure(s: ControllerView, ns: Seq<NodeId>) -> Option<Error>
    decreases ns.len(),
{
    if ns.len() == 0 {
        None
    } else {
        match spec_check_add(s, ns[0]) {
            Err(e) => Some(e),
            Ok(_) => first_add_failure(s, ns.drop_first()),
        }
    }
}

/// The error of the first node of `ns` that may not lose a link.
pub open spec fn first_remove_failure(s: ControllerView, ns: Seq<NodeId>) -> Option<Error>
    decreases ns.len(),
{
    if ns.len() == 0 {
        None
    } else {
        match spec_check_remove(s, ns[0]) {
            Err(e) => Some(e),
            Ok(_) => first_remove_failure(s, ns.drop_first()),
        }
    }
}

pub open spec fn rejected(s: ControllerView, r: Rejection) -> GuiStep {
    (s, Seq::empty(), Some(r))
}

pub open spec fn accepted(r: (ControllerView, Seq<Dispatch>)) -> GuiStep {
    (r.0, r.1, None)
}

/// A spawn is refused for a known drone id, a drop rate outside `[0, 1]` or a node
/// that may not gain a link; otherwise the drone is spawned, the network floods again
/// and the GUI hears of the new drone.
pub open spec fn gui_spawn_step(s: ControllerView, id: NodeId, ns: Seq<NodeId>, pdr: Pdr, factory: usize) -> GuiStep {
    if s.drones.contains(id) {
        rejected(s, Rejection::DroneAlreadyExists(id))
    } else if !spec_pdr_in_range(pdr.bits) {
        rejected(s, Rejection::PdrOutOfRange)
    } else {
        match first_add_failure(s, ns) {
            Some(e) => rejected(s, Rejection::Invalid(e)),
            None => {
                let r = spawn_step(s, id, ns, pdr, factory);
                (r.0, r.1 + seq![plain(Action::GlobalFlooding), plain(Action::Gui(GUIEvents::Spawn(id)))], None)
            },
        }
    }
}

/// A crash is refused for an unknown drone, a drone without neighbor list, or a drone
/// one of whose neighbors may not lose a link; otherwise every neighbor drops the drone,
/// the drone is crashed, the network floods again and the GUI hears of the crash.
pub open spec fn gui_crash_step(s: ControllerView, drone: NodeId) -> GuiStep {
    if !s.drones.contains(drone) {
        rejected(s, Rejection::Invalid(Error::DroneNotFound(drone)))
    } else if !s.has_entry(drone) {
        rejected(s, Rejection::Invalid(Error::HasNoNeighbor(drone)))
    } else {
        match first_remove_failure(s, s.neighbor[drone]) {
            Some(e) => rejected(s, Rejection::Invalid(e)),
            None => {
                let r1 = crash_step(s, drone);
                let r2 = drone_command_step(r1.0, drone, DroneCommand::Crash);
                (r2.0, r1.1 + r2.1 + seq![plain(Action::GlobalFlooding), plain(Action::Gui(GUIEvents::Crash(drone)))], None)
            },
        }
    }
}

/// The side of `node_id` of a link removal: through the first of the drone, chat
/// client, media client and communication server rosters that holds it.
pub open spec fn unlink_own_side(s: ControllerView, node_id: NodeId, to_remove: NodeId) -> (ControllerView, Seq<Dispatch>) {
    if s.drones.contains(node_id) {
        drone_command_step(s, node_id, DroneCommand::RemoveSender(to_remove))
    } else if s.cclients.contains(node_id) {
        chat_client_command_step(s, node_id, ChatClientCommand::RemoveSender(to_remove))
    } else if s.mclients.contains(node_id) {
        media_client_command_step(s, node_id, MediaClientCommand::RemoveSender(to_remove))
    } else if s.comm_servers.contains(node_id) {
        communication_server_command_step(s, node_id, CommunicationServerCommand::RemoveSender(to_remove))
    } else {
        (s, Seq::empty())
    }
}

/// A link removal is refused when either end may not lose a link or when
/// `remove_sender_step` refuses it; otherwise both ends drop the link.
pub open spec fn gui_remove_step(s: ControllerView, node_id: NodeId, to_remove: NodeId) -> GuiStep {
    match spec_check_remove(s, node_id) {
        Err(e) => rejected(s, Rejection::Invalid(e)),
        Ok(_) => match spec_check_remove(s, to_remove) {
            Err(e) => rejected(s, Rejection::Invalid(e)),
            Ok(_) => {
                let r1 = remove_sender_step(s, node_id, to_remove);
                match r1.2 {
                    Err(e) => (r1.0, r1.1, Some(Rejection::Invalid(e))),
                    Ok(_) => {
                        let r2 = unlink_own_side(r1.0, node_id, to_remove);
                        (r2.0, r1.1 + r2.1, None)
                    },
                }
            },
        },
    }
}

/// The side of `node_id` of a new link to `to_add` over channel `ch`: through the first
/// of the drone, chat client, media client and communication server rosters holding
/// `node_id`, else through the text or media server handler when `to_add` is such a
/// server.
pub open spec fn link_own_side(s: ControllerView, node_id: NodeId, to_add: NodeId, ch: ChannelRef) -> (ControllerView, Seq<Dispatch>) {
    if s.drones.contains(node_id) {
        drone_command_step(s, node_id, DroneCommand::AddSender(to_add, ch))
    } else if s.cclients.contains(node_id) {
        chat_client_command_step(s, node_id, ChatClientCommand::AddSender(to_add, ch))
    } else if s.mclients.contains(node_id) {
        media_client_command_step(s, node_id, MediaClientCommand::AddSender(to_add, ch))
    } else if s.comm_servers.contains(node_id) {
        communication_server_command_step(s, node_id, CommunicationServerCommand::AddSender(to_add, ch))
    } else if s.text_servers.contains(to_add) {
        text_server_command_step(s, node_id, ContentServerCommand::AddSender(to_add, ch))
    } else if s.media_servers.contains(to_add) {
        media_server_command_step(s, node_id, ContentServerCommand::AddSender(to_add, ch))
    } else {
        (s, Seq::empty())
    }
}

/// A new link is refused when either end may not gain a link or when `add_sender_step`
/// refuses it; otherwise both ends learn of it, each over the other's packet channel.
pub open spec fn gui_add_step(s: ControllerView, node_id: NodeId, to_add: NodeId) -> GuiStep {
    match spec_check_add(s, node_id) {
        Err(e) => rejected(s, Rejection::Invalid(e)),
        Ok(_) => match spec_check_add(s, to_add) {
            Err(e) => rejected(s, Rejection::Invalid(e)),
            Ok(_) => {
                let r1 = add_sender_step(s, node_id, to_add);
                match r1.2 {
                    Err(e) => (r1.0, r1.1, Some(Rejection::Invalid(e))),
                    Ok(_) => match r1.0.route(to_add) {
                        None => (r1.0, r1.1, Some(Rejection::Invalid(Error::NoSender(to_add)))),
                        Some(k) => {
                            let r2 = link_own_side(r1.0, node_id, to_add, ChannelRef { kind: k, owner: to_add });
                            (r2.0, r1.1 + r2.1, None)
                        },
                    },
                }
            },
        },
    }
}

/// Reaction to a GUI request; `factory` is the drone implementation a spawn builds.
pub open spec fn gui_step(s: ControllerView, command: GUICommands, factory: usize) -> GuiStep {
    match command {
        GUICommands::Spawn(id, ns, pdr) => gui_spawn_step(s, id, ns@, pdr, factory),
        GUICommands::Crash(drone) => gui_crash_step(s, drone),
        GUICommands::RemoveSender(a, b) => gui_remove_step(s, a, b),
        GUICommands::AddSender(a, b) => gui_add_step(s, a, b),
        GUICommands::SetPDR(drone, pdr) => if spec_pdr_in_range(pdr.bits) {
            accepted(drone_command_step(s, drone, DroneCommand::SetPacketDropRate(pdr)))
        } else {
            rejected(s, Rejection::PdrOutOfRange)
        },
        GUICommands::SendMessageTo(src, dest) => accepted(chat_client_command_step(s, src, ChatClientCommand::SendMessageTo(dest))),
        GUICommands::RegisterTo(client, server) => accepted(chat_client_command_step(s, client, ChatClientCommand::RegisterTo(server))),
        GUICommands::GetClientList(client) => accepted(chat_client_command_step(s, client, ChatClientCommand::GetClientList)),
        GUICommands::LogOut(client, _) => accepted(chat_client_command_step(s, client, ChatClientCommand::LogOut)),
        GUICommands::AskForFileList(client, server) => accepted(media_client_command_step(s, client, MediaClientCommand::AskFilesList(server))),
        GUICommands::GetFile(client, server) => accepted(media_client_command_step(s, client, MediaClientCommand::AskForFile(server))),
    }
}

/// The requests that the controller can carry out without failing: a spawn that passes
/// its checks names only drones with neighbor lists, and a new link that passes its checks
/// starts at a node of some roster.
pub open spec fn gui_command_ok(s: ControllerView, command: GUICommands) -> bool {
    match command {
        GUICommands::Spawn(id, ns, pdr) => !s.drones.contains(id) && spec_pdr_in_range(pdr.bits)
            && first_add_failure(s, ns@) is None ==> spawnable(s, id, ns@),
        GUICommands::AddSender(a, b) => spec_check_add(s, a) is Ok && spec_check_add(s, b) is Ok ==> addable(s, a, b),
        _ => true,
    }
}

impl SimulationController {
    /// Whether every node of `ns` other than `id` is a drone with a neighbor list.
    pub fn spawnable(&self, id: NodeId, ns: &Vec<NodeId>) -> (r: bool)
        ensures
            r == spawnable(self@, id, ns@),
    {
        let mut i: usize = 0;
        while i < ns.len()
            invariant
                i <= ns.len(),
                forall|j: int| 0 <= j < i && ns@[j] != id ==> self@.drones.contains(#[trigger] ns@[j]) && self@.has_entry(ns@[j]),
            decreases ns.len() - i,
        {
            let n = ns[i];
            if n != id && !(self.is_in(NodeKind::Drone, n) && self.neighbors(n).is_some()) {
                return false;
            }
            i = i + 1;
        }
        true
    }

    /// Whether the request satisfies `gui_command_ok`, that is, can be carried out
    /// without failing.
    pub fn can_carry_out(&self, command: &GUICommands) -> (r: bool)
        ensures
            r == gui_command_ok(self@, *command),
    {
        match command {
            GUICommands::Spawn(id, ns, pdr) => {
                if self.is_in(NodeKind::Drone, *id) || !pdr.in_range() || self.first_add_failure(ns).is_some() {
                    true
                } else {
                    self.spawnable(*id, ns)
                }
            },
            GUICommands::AddSender(a, b) => {
                if self.check_add(*a).is_err() || self.check_add(*b).is_err() {
                    true
                } else {
                    match self.neighbors(*a) {
                        Some(v) => crate::seq_util::contains(v, *b) || self.route(*a).is_some(),
                        None => true,
                    }
                }
            },
            _ => true,
        }
    }

    /// The error of the first node of `ns` that may not gain a link.
    fn first_add_failure(&self, ns: &Vec<NodeId>) -> (r: Option<Error>)
        ensures
            r == first_add_failure(self@, ns@),
    {
        let mut i: usize = 0;
        assert(ns@.skip(0) == ns@);
        while i < ns.len()
            invariant
                i <= ns.len(),
                first_add_failure(self@, ns@) == first_add_failure(self@, ns@.skip(i as int)),
            decreases ns.len() - i,
        {
            assert(ns@.skip(i as int).drop_first() == ns@.skip(i + 1));
            assert(ns@.skip(i as int)[0] == ns@[i as int]);
            if let Err(e) = self.check_add(ns[i]) {
                return Some(e);
            }
            i = i + 1;
        }
        None
    }

    /// The error of the first node of `ns` that may not lose a link.
    fn first_remove_failure(&self, ns: &Vec<NodeId>) -> (r: Option<Error>)
        ensures
            r == first_remove_failure(self@, ns@),
    {
        let mut i: usize = 0;
        assert(ns@.skip(0) == ns@);
        while i < ns.len()
            invariant
                i <= ns.len(),
                first_remove_failure(self@, ns@) == first_remove_failure(self@, ns@.skip(i as int)),
            decreases ns.len() - i,
        {
            assert(ns@.skip(i as int).drop_first() == ns@.skip(i + 1));
            assert(ns@.skip(i as int)[0] == ns@[i as int]);
            if let Err(e) = self.check_remove(ns[i]) {
                return Some(e);
            }
            i = i + 1;
        }
        None
    }

    fn gui_spawn(&mut self, id: NodeId, ns: Vec<NodeId>, pdr: Pdr, factory: usize) -> (out: GuiOutcome)
        requires
            old(self)@.wf(),
            gui_command_ok(old(self)@, GUICommands::Spawn(id, ns, pdr)),
        ensures
            final(self)@.wf(),
            final(self)@ == gui_spawn_step(old(self)@, id, ns@, pdr, factory).0,
            out.dispatches@ == gui_spawn_step(old(self)@, id, ns@, pdr, factory).1,
            out.rejection == gui_spawn_step(old(self)@, id, ns@, pdr, factory).2,
    {
        if self.is_in(NodeKind::Drone, id) {
            return GuiOutcome { dispatches: Vec::new(), rejection: Some(Rejection::DroneAlreadyExists(id)) };
        }
        if !pdr.in_range() {
            return GuiOutcome { dispatches: Vec::new(), rejection: Some(Rejection::PdrOutOfRange) };
        }
        if let Some(e) = self.first_add_failure(&ns) {
            return GuiOutcome { dispatches: Vec::new(), rejection: Some(Rejection::Invalid(e)) };
        }
        let mut dispatches = self.spawn_with_factory(id, &ns, pdr, factory);
        dispatches.push(plain_dispatch(Action::GlobalFlooding));
        dispatches.push(plain_dispatch(Action::Gui(GUIEvents::Spawn(id))));
        GuiOutcome { dispatches, rejection: None }
    }

    fn gui_crash(&mut self, drone: NodeId) -> (out: GuiOutcome)
        requires
            old(self)@.wf(),
        ensures
            final(self)@.wf(),
            final(self)@ == gui_crash_step(old(self)@, drone).0,
            out.dispatches@ == gui_crash_step(old(self)@, drone).1,
            out.rejection == gui_crash_step(old(self)@, drone).2,
    {
        if let Err(e) = self.check_drone_existence(drone) {
            return GuiOutcome { dispatches: Vec::new(), rejection: Some(Rejection::Invalid(e)) };
        }
        let failure = match self.neighbors(drone) {
            Some(ns) => self.first_remove_failure(ns),
            None => {
                return GuiOutcome {
                    dispatches: Vec::new(),
                    rejection: Some(Rejection::Invalid(Error::HasNoNeighbor(drone))),
                };
            },
        };
        if let Some(e) = failure {
            return GuiOutcome { dispatches: Vec::new(), rejection: Some(Rejection::Invalid(e)) };
        }
        let mut dispatches = match self.crash(drone) {
            Ok(out) => out,
            Err(e) => {
                return GuiOutcome { dispatches: Vec::new(), rejection: Some(Rejection::Invalid(e)) };
            },
        };
        let mut more = self.handle_drone_command(&drone, DroneCommand::Crash);
        dispatches.append(&mut more);
        dispatches.push(plain_dispatch(Action::GlobalFlooding));
        dispatches.push(plain_dispatch(Action::Gui(GUIEvents::Crash(drone))));
        GuiOutcome { dispatches, rejection: None }
    }

    fn gui_remove(&mut self, node_id: NodeId, to_remove: NodeId) -> (out: GuiOutcome)
        requires
            old(self)@.wf(),
        ensures
            final(self)@.wf(),
            final(self)@ == gui_remove_step(old(self)@, node_id, to_remove).0,
            out.dispatches@ == gui_remove_step(old(self)@, node_id, to_remove).1,
            out.rejection == gui_remove_step(old(self)@, node_id, to_remove).2,
    {
        if let Err(e) = self.check_remove(node_id) {
            return GuiOutcome { dispatches: Vec::new(), rejection: Some(Rejection::Invalid(e)) };
        }
        if let Err(e) = self.check_remove(to_remove) {
            return GuiOutcome { dispatches: Vec::new(), rejection: Some(Rejection::Invalid(e)) };
        }
        match self.remove_sender(node_id, to_remove) {
            Err(e) => GuiOutcome { dispatches: Vec::new(), rejection: Some(Rejection::Invalid(e)) },
            Ok(mut dispatches) => {
                let mut more = if self.is_in(NodeKind::Drone, node_id) {
                    self.handle_drone_command(&node_id, DroneCommand::RemoveSender(to_remove))
                } else if self.is_in(NodeKind::ChatClient, node_id) {
                    self.handle_chat_client_command(&node_id, ChatClientCommand::RemoveSender(to_remove))
                } else if self.is_in(NodeKind::MediaClient, node_id) {
                    self.handle_media_client_command(&node_id, MediaClientCommand::RemoveSender(to_remove))
                } else if self.is_in(NodeKind::CommunicationServer, node_id) {
                    self.handle_communication_server_command(&node_id, CommunicationServerCommand::RemoveSender(to_remove))
                } else {
                    Vec::new()
                };
                dispatches.append(&mut more);
                GuiOutcome { dispatches, rejection: None }
            },
        }
    }

    fn gui_add(&mut self, node_id: NodeId, to_add: NodeId) -> (out: GuiOutcome)
        requires
            old(self)@.wf(),
            spec_check_add(old(self)@, node_id) is Ok && spec_check_add(old(self)@, to_add) is Ok
                ==> addable(old(self)@, node_id, to_add),
        ensures
            final(self)@.wf(),
            final(self)@ == gui_add_step(old(self)@, node_id, to_add).0,
            out.dispatches@ == gui_add_step(old(self)@, node_id, to_add).1,
            out.rejection == gui_add_step(old(self)@, node_id, to_add).2,
    {
        if let Err(e) = self.check_add(node_id) {
            return GuiOutcome { dispatches: Vec::new(), rejection: Some(Rejection::Invalid(e)) };
        }
        if let Err(e) = self.check_add(to_add) {
            return GuiOutcome { dispatches: Vec::new(), rejection: Some(Rejection::Invalid(e)) };
        }
        match self.add_sender(node_id, to_add) {
            Err(e) => GuiOutcome { dispatches: Vec::new(), rejection: Some(Rejection::Invalid(e)) },
            Ok(mut dispatches) => {
                let kind = match self.route(to_add) {
                    Some(k) => k,
                    None => {
                        return GuiOutcome { dispatches, rejection: Some(Rejection::Invalid(Error::NoSender(to_add))) };
                    },
                };
                let ch = ChannelRef { kind, owner: to_add };
                let mut more = if self.is_in(NodeKind::Drone, node_id) {
                    self.handle_drone_command(&node_id, DroneCommand::AddSender(to_add, ch))
                } else if self.is_in(NodeKind::ChatClient, node_id) {
                    self.handle_chat_client_command(&node_id, ChatClientCommand::AddSender(to_add, ch))
                } else if self.is_in(NodeKind::MediaClient, node_id) {
                    self.handle_media_client_command(&node_id, MediaClientCommand::AddSender(to_add, ch))
                } else if self.is_in(NodeKind::CommunicationServer, node_id) {
                    self.handle_communication_server_command(&node_id, CommunicationServerCommand::AddSender(to_add, ch))
                } else if self.is_in(NodeKind::TextServer, to_add) {
                    self.handle_text_server_command(&node_id, ContentServerCommand::AddSender(to_add, ch))
                } else if self.is_in(NodeKind::MediaServer, to_add) {
                    self.handle_media_server_command(&node_id, ContentServerCommand::AddSender(to_add, ch))
                } else {
                    Vec::new()
                };
                dispatches.append(&mut more);
                GuiOutcome { dispatches, rejection: None }
            },
        }
    }

    /// Carries out a GUI request; a spawn builds the drone from factory `factory`.
    pub fn handle_gui_command_with_factory(&mut self, command: GUICommands, factory: usize) -> (out: GuiOutcome)
        requires
            old(self)@.wf(),
            gui_command_ok(old(self)@, command),
        ensures
            final(self)@.wf(),
            final(self)@ == gui_step(old(self)@, command, factory).0,
            out.dispatches@ == gui_step(old(self)@, command, factory).1,
            out.rejection == gui_step(old(self)@, command, factory).2,
    {
        match command {
            GUICommands::Spawn(id, ns, pdr) => self.gui_spawn(id, ns, pdr, factory),
            GUICommands::Crash(drone) => self.gui_crash(drone),
            GUICommands::RemoveSender(a, b) => self.gui_remove(a, b),
            GUICommands::AddSender(a, b) => self.gui_add(a, b),
            GUICommands::SetPDR(drone, pdr) => {
                if pdr.in_range() {
                    let dispatches = self.handle_drone_command(&drone, DroneCommand::SetPacketDropRate(pdr));
                    GuiOutcome { dispatches, rejection: None }
                } else {
                    GuiOutcome { dispatches: Vec::new(), rejection: Some(Rejection::PdrOutOfRange) }
                }
            },
            GUICommands::SendMessageTo(src, dest) => GuiOutcome {
                dispatches: self.handle_chat_client_command(&src, ChatClientCommand::SendMessageTo(dest)),
                rejection: None,
            },
            GUICommands::RegisterTo(client, server) => GuiOutcome {
                dispatches: self.handle_chat_client_command(&client, ChatClientCommand::RegisterTo(server)),
                rejection: None,
            },
            GUICommands::GetClientList(client) => GuiOutcome {
                dispatches: self.handle_chat_client_command(&client, ChatClientCommand::GetClientList),
                rejection: None,
            },
            GUICommands::LogOut(client, _) => GuiOutcome {
                dispatches: self.handle_chat_client_command(&client, ChatClientCommand::LogOut),
                rejection: None,
            },
            GUICommands::AskForFileList(client, server) => GuiOutcome {
                dispatches: self.handle_media_client_command(&client, MediaClientCommand::AskFilesList(server)),
                rejection: None,
            },
            GUICommands::GetFile(client, server) => GuiOutcome {
                dispatches: self.handle_media_client_command(&client, MediaClientCommand::AskForFile(server)),
                rejection: None,
            },
        }
    }

    /// Carries out a GUI request; a spawn builds the drone from a factory picked at
    /// random, the one its `CreateDrone` dispatch names.
    pub fn handle_gui_command(&mut self, command: GUICommands) -> (out: GuiOutcome)
        requires
            old(self)@.wf(),
            gui_command_ok(old(self)@, command),
        ensures
            final(self)@.wf(),
            exists|k: usize| k < DRONE_FACTORIES
                && final(self)@ == gui_step(old(self)@, command, k).0
                && out.dispatches@ == gui_step(old(self)@, command, k).1
                && out.rejection == gui_step(old(self)@, command, k).2,
    {
        let factory = random_below(DRONE_FACTORIES);
        self.handle_gui_command_with_factory(command, factory)
    }
}

} // verus!
