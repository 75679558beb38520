use std::collections::HashMap;

use simulation_controller::controller::SimulationController;
use simulation_controller::error::{Error, SimulationControllerError};
use simulation_controller::messages::{
    Action, ChatClientCommand, ChatClientEvent, CommunicationServerCommand, CommunicationServerEvent,
    ContentServerCommand, ContentServerEvent, Delivery, Dispatch, DroneCommand, DroneEvent, FollowUp,
    GUICommands, GUIEvents, MediaClientCommand, MediaClientEvent, Rejection,
};
use simulation_controller::network::{
    ChannelRef, NackType, NodeKind, NodeType, Packet, PacketType, Pdr, SourceRoutingHeader,
};
use simulation_controller::support::DRONE_FACTORIES;
use simulation_controller::user_interaction::{parse_and_verify, pdr_verify};
use simulation_controller::verify::is_a_neighbor;

fn pdr(x: f32) -> Pdr {
    Pdr { bits: x.to_bits() }
}

fn plain(a: Action) -> Dispatch {
    Dispatch { action: a, on_success: FollowUp::Nothing }
}

/// Drones 1, 2, 3 in a line 1-2-3, plus 4-1; chat client 10 on drone 1; media client 11
/// on drones 2 and 3; communication server 20 on 1, 2, 3; text server 21 on 2, 3; media
/// server 22 on 1, 3.
fn network() -> SimulationController {
    let mut neighbor: HashMap<u8, Vec<u8>> = HashMap::new();
    neighbor.insert(1, vec![2, 4, 10, 20, 22]);
    neighbor.insert(2, vec![1, 3, 11, 20, 21]);
    neighbor.insert(3, vec![2, 11, 20, 21, 22]);
    neighbor.insert(4, vec![1]);
    neighbor.insert(10, vec![1]);
    neighbor.insert(11, vec![2, 3]);
    neighbor.insert(20, vec![1, 2, 3]);
    neighbor.insert(21, vec![2, 3]);
    neighbor.insert(22, vec![1, 3]);
    SimulationController::new(vec![1, 2, 3, 4], neighbor, vec![10], vec![11], vec![20], vec![21], vec![22])
}

fn nbrs(c: &SimulationController, id: u8) -> Vec<u8> {
    c.neighbors(id).unwrap().clone()
}

fn packet(kind: PacketType, hop_index: usize, hops: Vec<u8>) -> Packet {
    Packet { pack_type: kind, routing_header: SourceRoutingHeader { hop_index, hops } }
}

#[test]
fn new_keeps_first_occurrence_of_each_id() {
    let c = SimulationController::new(vec![3, 1, 3, 2, 1], HashMap::new(), vec![], vec![], vec![], vec![], vec![]);
    assert_eq!(c.roster(NodeKind::Drone), &vec![3, 1, 2]);
}

#[test]
fn parse_accepts_ids_with_trailing_white_space_and_clears_input() {
    let mut input = String::from("42\n");
    assert_eq!(parse_and_verify(&mut input).unwrap(), 42);
    assert_eq!(input, "");
    let mut input = String::from("+7 \t\r\n");
    assert_eq!(parse_and_verify(&mut input).unwrap(), 7);
    let mut input = String::from("00255");
    assert_eq!(parse_and_verify(&mut input).unwrap(), 255);
    let mut input = String::from("0\u{3000}");
    assert_eq!(parse_and_verify(&mut input).unwrap(), 0);
}

#[test]
fn parse_refuses_what_u8_parsing_refuses() {
    for text in ["", "\n", "256", "-1", "+", " 5", "5a", "1 2", "-0", "٣"] {
        let mut input = String::from(text);
        assert!(matches!(parse_and_verify(&mut input), Err(SimulationControllerError::InvalidNodeId)), "{text:?}");
        assert_eq!(input, "");
        assert!(text.trim_end().parse::<u8>().is_err());
    }
}

#[test]
fn parse_agrees_with_std_on_every_byte_value() {
    for v in 0u16..300 {
        let mut input = format!("{v}\n");
        let expected = v.to_string().parse::<u8>().ok();
        assert_eq!(parse_and_verify(&mut input).ok(), expected);
    }
}

#[test]
fn pdr_range_follows_float_comparison() {
    for x in [0.0f32, -0.0, 0.5, 1.0, 1e-40, 0.999_999_9] {
        assert!(pdr(x).in_range(), "{x}");
        assert!(pdr_verify(pdr(x)).is_ok());
    }
    for x in [1.000_000_1f32, -1e-40, -0.5, 2.0, f32::NAN, -f32::NAN, f32::INFINITY, f32::NEG_INFINITY] {
        assert!(!pdr(x).in_range(), "{x}");
        assert!(matches!(pdr_verify(pdr(x)), Err(SimulationControllerError::PacketDropRateOutOfRange)));
    }
}

#[test]
fn node_types_and_existence() {
    let c = network();
    assert_eq!(c.get_node_type(1), NodeType::Drone);
    assert_eq!(c.get_node_type(10), NodeType::Client);
    assert_eq!(c.get_node_type(11), NodeType::Client);
    assert_eq!(c.get_node_type(20), NodeType::Server);
    assert_eq!(c.get_node_type(99), NodeType::Server);
    assert_eq!(c.check_drone_existence(2), Ok(()));
    assert_eq!(c.check_drone_existence(10), Err(Error::DroneNotFound(10)));
    assert_eq!(c.has_neighbors(4).unwrap(), &vec![1]);
    assert_eq!(c.has_neighbors(99), Err(Error::HasNoNeighbor(99)));
}

#[test]
fn removal_rules() {
    let c = network();
    assert_eq!(c.check_remove(1), Ok(()));
    assert_eq!(c.check_remove(4), Err(Error::DroneRemove));
    assert_eq!(c.check_remove(11), Ok(()));
    assert_eq!(c.check_remove(10), Err(Error::ClientRemove));
    assert_eq!(c.check_remove(20), Ok(()));
    assert_eq!(c.check_remove(21), Err(Error::ServerRemove));
    assert_eq!(c.check_remove(99), Err(Error::HasNoNeighbor(99)));
}

#[test]
fn addition_rules() {
    let c = network();
    assert_eq!(c.check_add(10), Ok(()));
    assert_eq!(c.check_add(11), Err(Error::ClientAdd));
    assert_eq!(c.check_add(1), Ok(()));
    assert_eq!(c.check_add(21), Ok(()));
    let lone = SimulationController::new(vec![], HashMap::new(), vec![7], vec![], vec![], vec![], vec![]);
    assert_eq!(lone.check_add(7), Err(Error::HasNoNeighbor(7)));
}

#[test]
fn neighbor_membership() {
    assert_eq!(is_a_neighbor(&[1, 2], 2, 5, false), Ok(()));
    assert_eq!(is_a_neighbor(&[1, 2], 3, 5, false), Err(Error::NotNeighbor(3, 5)));
    assert_eq!(is_a_neighbor(&[1, 2], 3, 5, true), Ok(()));
    assert_eq!(is_a_neighbor(&[1, 2], 1, 5, true), Err(Error::IsNeighbor(1, 5)));
}

#[test]
fn drone_command_edits_links_and_reports_them() {
    let mut c = network();
    let out = c.handle_drone_command(&1, DroneCommand::RemoveSender(4));
    assert_eq!(nbrs(&c, 1), vec![2, 10, 20, 22]);
    assert_eq!(
        out,
        vec![Dispatch {
            action: Action::Drone(1, DroneCommand::RemoveSender(4)),
            on_success: FollowUp::NotifyAndFlood(GUIEvents::RemoveSender(1, 4)),
        }]
    );
    let ch = ChannelRef { kind: NodeKind::Drone, owner: 4 };
    let out = c.handle_drone_command(&1, DroneCommand::AddSender(4, ch));
    assert_eq!(nbrs(&c, 1), vec![2, 10, 20, 22, 4]);
    assert_eq!(out[0].on_success, FollowUp::NotifyAndFlood(GUIEvents::AddSender(1, 4)));
    assert_eq!(c.handle_drone_command(&10, DroneCommand::Crash), vec![]);
    let out = c.handle_drone_command(&2, DroneCommand::SetPacketDropRate(pdr(0.25)));
    assert_eq!(out, vec![plain(Action::Drone(2, DroneCommand::SetPacketDropRate(pdr(0.25))))]);
}

#[test]
fn drone_crash_command_unregisters_the_drone() {
    let mut c = network();
    let out = c.handle_drone_command(&4, DroneCommand::Crash);
    assert_eq!(out, vec![plain(Action::Drone(4, DroneCommand::Crash))]);
    assert!(!c.is_in(NodeKind::Drone, 4));
    assert!(c.neighbors(4).is_none());
    assert_eq!(c.roster(NodeKind::Drone), &vec![1, 2, 3]);
}

#[test]
fn client_commands_respect_rosters() {
    let mut c = network();
    let ch = ChannelRef { kind: NodeKind::ChatClient, owner: 10 };
    assert_eq!(c.handle_chat_client_command(&10, ChatClientCommand::AddSender(10, ch)), vec![]);
    // another client, of either kind, is refused by both client handlers
    let mc = ChannelRef { kind: NodeKind::MediaClient, owner: 11 };
    assert_eq!(c.handle_chat_client_command(&10, ChatClientCommand::AddSender(11, mc)), vec![]);
    let cc = ChannelRef { kind: NodeKind::ChatClient, owner: 10 };
    assert_eq!(c.handle_media_client_command(&11, MediaClientCommand::AddSender(10, cc)), vec![]);
    assert_eq!(nbrs(&c, 10), vec![1]);
    let ch = ChannelRef { kind: NodeKind::Drone, owner: 2 };
    let out = c.handle_chat_client_command(&10, ChatClientCommand::AddSender(2, ch));
    assert_eq!(nbrs(&c, 10), vec![1, 2]);
    assert_eq!(out[0].on_success, FollowUp::Flood);
    assert_eq!(c.handle_chat_client_command(&10, ChatClientCommand::RegisterTo(21)), vec![]);
    assert_eq!(
        c.handle_chat_client_command(&10, ChatClientCommand::RegisterTo(20)),
        vec![plain(Action::ChatClient(10, ChatClientCommand::RegisterTo(20)))]
    );
    assert_eq!(c.handle_chat_client_command(&11, ChatClientCommand::LogOut), vec![]);
    let out = c.handle_media_client_command(&11, MediaClientCommand::RemoveSender(3));
    assert_eq!(nbrs(&c, 11), vec![2]);
    assert_eq!(out[0].on_success, FollowUp::NotifyAndFlood(GUIEvents::RemoveSender(11, 3)));
    assert_eq!(
        c.handle_media_client_command(&11, MediaClientCommand::AskForFile(21)),
        vec![plain(Action::MediaClient(11, MediaClientCommand::AskForFile(21)))]
    );
}

#[test]
fn server_commands_respect_rosters() {
    let mut c = network();
    assert_eq!(c.handle_communication_server_command(&21, CommunicationServerCommand::LogNetwork), vec![]);
    let out = c.handle_communication_server_command(&20, CommunicationServerCommand::RemoveSender(3));
    assert_eq!(nbrs(&c, 20), vec![1, 2]);
    assert_eq!(out[0].on_success, FollowUp::NotifyAndFlood(GUIEvents::RemoveSender(20, 3)));
    let out = c.handle_text_server_command(&21, ContentServerCommand::RemoveSender(3));
    assert_eq!(nbrs(&c, 21), vec![2]);
    assert_eq!(out[0].on_success, FollowUp::Flood);
    assert_eq!(c.handle_text_server_command(&22, ContentServerCommand::InitFlooding), vec![]);
    let ch = ChannelRef { kind: NodeKind::Drone, owner: 2 };
    let out = c.handle_media_server_command(&22, ContentServerCommand::AddSender(2, ch));
    assert_eq!(nbrs(&c, 22), vec![1, 3, 2]);
    assert_eq!(out[0].on_success, FollowUp::NotifyAndFlood(GUIEvents::AddSender(22, 2)));
}

#[test]
fn global_flooding_asks_every_client_and_server_once() {
    let c = network();
    let out = c.global_flooding();
    assert_eq!(
        out,
        vec![
            plain(Action::ChatClient(10, ChatClientCommand::InitFlooding)),
            plain(Action::MediaClient(11, MediaClientCommand::InitFlooding)),
            plain(Action::TextServer(21, ContentServerCommand::InitFlooding)),
            plain(Action::MediaServer(22, ContentServerCommand::InitFlooding)),
            plain(Action::CommunicationServer(20, CommunicationServerCommand::InitFlooding)),
        ]
    );
}

#[test]
fn startup_floods_then_starts_each_chat_client() {
    let c = SimulationController::new(vec![], HashMap::new(), vec![5, 6], vec![], vec![], vec![], vec![]);
    assert_eq!(
        c.start_chat_clients(),
        vec![
            plain(Action::ChatClient(5, ChatClientCommand::InitFlooding)),
            plain(Action::ChatClient(5, ChatClientCommand::StartChatClient)),
            plain(Action::ChatClient(6, ChatClientCommand::InitFlooding)),
            plain(Action::ChatClient(6, ChatClientCommand::StartChatClient)),
        ]
    );
}

#[test]
fn drone_events() {
    let c = network();
    let sent = packet(PacketType::Ack, 1, vec![10, 1, 2, 20]);
    assert_eq!(c.handle_drone_event(DroneEvent::PacketSent(sent)), vec![plain(Action::Gui(GUIEvents::PacketSent(1, 2)))]);
    let nack = packet(PacketType::Nack(NackType::ErrorInRouting(3)), 0, vec![2, 1]);
    assert_eq!(
        c.handle_drone_event(DroneEvent::PacketSent(nack)),
        vec![plain(Action::Gui(GUIEvents::PacketSent(2, 1))), plain(Action::GlobalFlooding)]
    );
    let dropped = packet(PacketType::Nack(NackType::Dropped), 0, vec![2, 1]);
    assert_eq!(c.handle_drone_event(DroneEvent::PacketSent(dropped)), vec![plain(Action::Gui(GUIEvents::PacketSent(2, 1)))]);
    let last = packet(PacketType::Ack, 1, vec![2, 1]);
    assert_eq!(c.handle_drone_event(DroneEvent::PacketSent(last)), vec![]);
    let gone = packet(PacketType::MsgFragment, 2, vec![1, 2, 3]);
    assert_eq!(c.handle_drone_event(DroneEvent::PacketDropped(gone)), vec![plain(Action::Gui(GUIEvents::PacketDropped(3)))]);
    let beyond = packet(PacketType::MsgFragment, 3, vec![1, 2, 3]);
    assert_eq!(c.handle_drone_event(DroneEvent::PacketDropped(beyond)), vec![]);
}

#[test]
fn shortcuts_go_to_the_last_hop() {
    let c = network();
    let ack = packet(PacketType::Ack, 0, vec![1, 2, 11]);
    assert_eq!(
        c.handle_drone_event(DroneEvent::ControllerShortcut(ack)),
        vec![plain(Action::Forward(ChannelRef { kind: NodeKind::MediaClient, owner: 11 }, Delivery::Lenient))]
    );
    let frag = packet(PacketType::MsgFragment, 0, vec![1, 2, 11]);
    assert_eq!(c.handle_chat_client_event(ChatClientEvent::ControllerShortcut(frag)), vec![]);
    let unknown = packet(PacketType::FloodResponse, 0, vec![1, 99]);
    assert_eq!(c.handle_media_server_event(ContentServerEvent::ControllerShortcut(unknown)), vec![]);
    let empty = packet(PacketType::Ack, 0, vec![]);
    assert_eq!(c.handle_communication_server_event(CommunicationServerEvent::ControllerShortcut(empty)), vec![]);
    let to_server = packet(PacketType::Ack, 0, vec![1, 20]);
    assert_eq!(
        c.handle_media_client_event(MediaClientEvent::ControllerShortcut(to_server)),
        vec![plain(Action::Forward(ChannelRef { kind: NodeKind::CommunicationServer, owner: 20 }, Delivery::Strict))]
    );
    let to_drone = packet(PacketType::Nack(NackType::Dropped), 0, vec![2, 3]);
    assert_eq!(
        c.process_text_server_event(ContentServerEvent::ControllerShortcut(to_drone)),
        vec![plain(Action::Forward(ChannelRef { kind: NodeKind::Drone, owner: 3 }, Delivery::Strict))]
    );
}

#[test]
fn client_and_server_events_reach_the_gui() {
    let c = network();
    assert_eq!(
        c.handle_chat_client_event(ChatClientEvent::MessageReceived(20, 10)),
        vec![plain(Action::Gui(GUIEvents::MessageReceived(20, 10)))]
    );
    assert_eq!(c.handle_chat_client_event(ChatClientEvent::ClientList(10)), vec![plain(Action::Gui(GUIEvents::ClientList(10)))]);
    assert_eq!(c.handle_chat_client_event(ChatClientEvent::SuccessfulLogOut), vec![]);
    assert_eq!(
        c.handle_media_client_event(MediaClientEvent::ReceveidFileList(21, 11)),
        vec![plain(Action::Gui(GUIEvents::FileList(21, 11)))]
    );
    assert_eq!(c.handle_media_client_event(MediaClientEvent::ReceveidFile(11)), vec![]);
    assert_eq!(c.handle_communication_server_event(CommunicationServerEvent::ServerStarted), vec![]);
    assert_eq!(c.handle_media_server_event(ContentServerEvent::UnreachableClient(10)), vec![]);
}

#[test]
fn gui_spawn_is_checked_then_carried_out() {
    let mut c = network();
    let out = c.handle_gui_command_with_factory(GUICommands::Spawn(1, vec![2], pdr(0.1)), 3);
    assert_eq!(out.rejection, Some(Rejection::DroneAlreadyExists(1)));
    let out = c.handle_gui_command_with_factory(GUICommands::Spawn(5, vec![2], pdr(1.5)), 3);
    assert_eq!(out.rejection, Some(Rejection::PdrOutOfRange));
    let out = c.handle_gui_command_with_factory(GUICommands::Spawn(5, vec![2, 11], pdr(0.1)), 3);
    assert_eq!(out.rejection, Some(Rejection::Invalid(Error::ClientAdd)));
    assert!(c.neighbors(5).is_none());
    let out = c.handle_gui_command_with_factory(GUICommands::Spawn(5, vec![2, 3], pdr(0.1)), 3);
    assert_eq!(out.rejection, None);
    assert_eq!(
        out.dispatches,
        vec![
            plain(Action::CreateDrone(5, 3, pdr(0.1))),
            plain(Action::GlobalFlooding),
            plain(Action::Gui(GUIEvents::Spawn(5))),
        ]
    );
    assert_eq!(nbrs(&c, 5), vec![2, 3]);
    assert_eq!(nbrs(&c, 2), vec![1, 3, 11, 20, 21, 5]);
    assert_eq!(nbrs(&c, 3), vec![2, 11, 20, 21, 22, 5]);
    assert!(c.is_in(NodeKind::Drone, 5));
}

#[test]
fn gui_spawn_picks_a_factory_in_range() {
    for id in 30u8..60 {
        let mut c = network();
        let out = c.handle_gui_command(GUICommands::Spawn(id, vec![1], pdr(0.0)));
        match out.dispatches[0].action {
            Action::CreateDrone(d, k, p) => {
                assert_eq!(d, id);
                assert!(k < DRONE_FACTORIES);
                assert_eq!(p, pdr(0.0));
            }
            other => panic!("unexpected {other:?}"),
        }
    }
}

#[test]
fn gui_crash_unlinks_every_neighbor() {
    let mut c = network();
    assert_eq!(c.handle_gui_command_with_factory(GUICommands::Crash(10), 0).rejection, Some(Rejection::Invalid(Error::DroneNotFound(10))));
    // drone 4 is the only neighbor of nobody but drone 1, which has enough links
    let out = c.handle_gui_command_with_factory(GUICommands::Crash(4), 0);
    assert_eq!(out.rejection, None);
    assert_eq!(
        out.dispatches,
        vec![
            Dispatch {
                action: Action::Drone(1, DroneCommand::RemoveSender(4)),
                on_success: FollowUp::NotifyAndFlood(GUIEvents::RemoveSender(1, 4)),
            },
            plain(Action::Drone(4, DroneCommand::Crash)),
            plain(Action::GlobalFlooding),
            plain(Action::Gui(GUIEvents::Crash(4))),
        ]
    );
    assert_eq!(nbrs(&c, 1), vec![2, 10, 20, 22]);
    assert!(!c.is_in(NodeKind::Drone, 4));
    // drone 1 cannot go: chat client 10 would lose its only link
    let out = c.handle_gui_command_with_factory(GUICommands::Crash(1), 0);
    assert_eq!(out.rejection, Some(Rejection::Invalid(Error::ClientRemove)));
}

#[test]
fn gui_remove_sender_unlinks_both_ends() {
    let mut c = network();
    assert_eq!(
        c.handle_gui_command_with_factory(GUICommands::RemoveSender(4, 1), 0).rejection,
        Some(Rejection::Invalid(Error::DroneRemove))
    );
    assert_eq!(
        c.handle_gui_command_with_factory(GUICommands::RemoveSender(1, 3), 0).rejection,
        Some(Rejection::Invalid(Error::NotNeighbor(3, 1)))
    );
    let out = c.handle_gui_command_with_factory(GUICommands::RemoveSender(2, 3), 0);
    assert_eq!(out.rejection, None);
    assert_eq!(out.dispatches.len(), 2);
    assert_eq!(out.dispatches[0].action, Action::Drone(3, DroneCommand::RemoveSender(2)));
    assert_eq!(out.dispatches[1].action, Action::Drone(2, DroneCommand::RemoveSender(3)));
    assert_eq!(nbrs(&c, 2), vec![1, 11, 20, 21]);
    assert_eq!(nbrs(&c, 3), vec![11, 20, 21, 22]);
}

#[test]
fn gui_add_sender_links_both_ends_over_each_others_channel() {
    let mut c = network();
    assert_eq!(
        c.handle_gui_command_with_factory(GUICommands::AddSender(1, 2), 0).rejection,
        Some(Rejection::Invalid(Error::IsNeighbor(2, 1)))
    );
    let out = c.handle_gui_command_with_factory(GUICommands::AddSender(4, 3), 0);
    assert_eq!(out.rejection, None);
    assert_eq!(
        out.dispatches[0].action,
        Action::Drone(3, DroneCommand::AddSender(4, ChannelRef { kind: NodeKind::Drone, owner: 4 }))
    );
    assert_eq!(
        out.dispatches[1].action,
        Action::Drone(4, DroneCommand::AddSender(3, ChannelRef { kind: NodeKind::Drone, owner: 3 }))
    );
    assert_eq!(nbrs(&c, 4), vec![1, 3]);
    assert_eq!(nbrs(&c, 3), vec![2, 11, 20, 21, 22, 4]);
    // the client now has two links and may not gain a third
    let out = c.handle_gui_command_with_factory(GUICommands::AddSender(10, 2), 0);
    assert_eq!(out.rejection, None);
    assert_eq!(nbrs(&c, 10), vec![1, 2]);
    assert_eq!(
        c.handle_gui_command_with_factory(GUICommands::AddSender(10, 3), 0).rejection,
        Some(Rejection::Invalid(Error::ClientAdd))
    );
}

#[test]
fn gui_requests_for_clients() {
    let mut c = network();
    assert_eq!(c.handle_gui_command_with_factory(GUICommands::SetPDR(2, pdr(-0.5)), 0).rejection, Some(Rejection::PdrOutOfRange));
    assert_eq!(
        c.handle_gui_command_with_factory(GUICommands::SetPDR(2, pdr(0.5)), 0).dispatches,
        vec![plain(Action::Drone(2, DroneCommand::SetPacketDropRate(pdr(0.5))))]
    );
    assert_eq!(
        c.handle_gui_command_with_factory(GUICommands::SendMessageTo(10, 12), 0).dispatches,
        vec![plain(Action::ChatClient(10, ChatClientCommand::SendMessageTo(12)))]
    );
    assert_eq!(
        c.handle_gui_command_with_factory(GUICommands::LogOut(10, 20), 0).dispatches,
        vec![plain(Action::ChatClient(10, ChatClientCommand::LogOut))]
    );
    assert_eq!(
        c.handle_gui_command_with_factory(GUICommands::GetFile(11, 21), 0).dispatches,
        vec![plain(Action::MediaClient(11, MediaClientCommand::AskForFile(21)))]
    );
    assert_eq!(c.handle_gui_command_with_factory(GUICommands::GetClientList(11), 0).dispatches, vec![]);
}

#[test]
fn direct_support_calls() {
    let mut c = network();
    assert_eq!(c.remove_sender(99, 1), Err(Error::HasNoNeighbor(99)));
    assert_eq!(c.add_sender(99, 1), Err(Error::HasNoNeighbor(99)));
    let out = c.crash(2).unwrap();
    assert_eq!(out.len(), 5);
    assert_eq!(nbrs(&c, 1), vec![4, 10, 20, 22]);
    assert_eq!(nbrs(&c, 11), vec![3]);
    assert_eq!(nbrs(&c, 21), vec![3]);
    assert!(c.is_in(NodeKind::Drone, 2));
    let spawned = c.spawn(7, vec![1], pdr(0.3)).unwrap();
    assert_eq!(spawned.len(), 1);
    assert_eq!(nbrs(&c, 1), vec![4, 10, 20, 22, 7]);
}

#[test]
fn a_link_to_an_unregistered_node_is_refused() {
    let mut neighbor: HashMap<u8, Vec<u8>> = HashMap::new();
    neighbor.insert(1, vec![2, 50]);
    neighbor.insert(2, vec![1]);
    let mut c = SimulationController::new(vec![1, 2], neighbor, vec![], vec![], vec![], vec![], vec![]);
    assert_eq!(c.remove_sender(1, 50), Err(Error::ClientOnClient));
    assert_eq!(c.add_sender(1, 60), Err(Error::ClientOnClient));
    assert_eq!(
        c.handle_gui_command_with_factory(GUICommands::AddSender(1, 60), 0).rejection,
        Some(Rejection::Invalid(Error::ClientOnClient))
    );
    assert_eq!(c.neighbors(1).unwrap(), &vec![2, 50]);
}

#[test]
fn requests_that_cannot_be_carried_out_are_recognised() {
    let c = network();
    assert!(c.can_carry_out(&GUICommands::Spawn(5, vec![1, 2], pdr(0.1))));
    assert!(!c.spawnable(5, &vec![1, 20]));
    assert!(!c.can_carry_out(&GUICommands::Spawn(5, vec![1, 20], pdr(0.1))));
    // refused before anything is built: the request is harmless
    assert!(c.can_carry_out(&GUICommands::Spawn(1, vec![20], pdr(0.1))));
    assert!(c.can_carry_out(&GUICommands::Crash(3)));
    let mut neighbor: HashMap<u8, Vec<u8>> = HashMap::new();
    neighbor.insert(40, vec![]);
    neighbor.insert(1, vec![40]);
    let odd = SimulationController::new(vec![1], neighbor, vec![], vec![], vec![], vec![], vec![]);
    assert!(!odd.can_carry_out(&GUICommands::AddSender(40, 1)));
    // already linked on the side of drone 1: refused before any channel is needed
    assert!(odd.can_carry_out(&GUICommands::AddSender(1, 40)));
    let frag = packet(PacketType::MsgFragment, 0, vec![1, 2]);
    assert!(!c.deliverable(&frag));
    let frag_nowhere = packet(PacketType::MsgFragment, 0, vec![1, 99]);
    assert!(c.deliverable(&frag_nowhere));
    assert!(c.deliverable(&packet(PacketType::Ack, 0, vec![1, 2])));
}
