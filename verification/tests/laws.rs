use std::collections::HashMap;

use simulation_controller::controller::SimulationController;
use simulation_controller::messages::GUICommands;
use simulation_controller::network::{NodeKind, Pdr};

fn network() -> SimulationController {
    let mut neighbor: HashMap<u8, Vec<u8>> = HashMap::new();
    neighbor.insert(1, vec![2, 3]);
    neighbor.insert(2, vec![1, 5]);
    neighbor.insert(3, vec![1, 5]);
    neighbor.insert(4, vec![5]);
    neighbor.insert(5, vec![2, 3, 4]);
    neighbor.insert(9, vec![1]);
    SimulationController::new(vec![1, 2, 3, 4], neighbor, vec![9], vec![], vec![5], vec![], vec![])
}

fn snapshot(c: &SimulationController) -> Vec<(u8, Vec<u8>)> {
    let mut all = Vec::new();
    for id in 0u8..=255 {
        if let Some(v) = c.neighbors(id) {
            all.push((id, v.clone()));
        }
    }
    all
}

#[test]
fn add_then_remove_restores_the_links() {
    let mut c = network();
    let before = snapshot(&c);
    assert!(c.handle_gui_command_with_factory(GUICommands::AddSender(2, 4), 0).rejection.is_none());
    assert_ne!(snapshot(&c), before);
    assert!(c.handle_gui_command_with_factory(GUICommands::RemoveSender(2, 4), 0).rejection.is_none());
    assert_eq!(snapshot(&c), before);
}

#[test]
fn spawn_then_crash_restores_the_state() {
    let mut c = network();
    let before = snapshot(&c);
    let drones = c.roster(NodeKind::Drone).clone();
    let out = c.handle_gui_command(GUICommands::Spawn(7, vec![1, 4], Pdr { bits: 0.5f32.to_bits() }));
    assert!(out.rejection.is_none());
    assert!(c.handle_gui_command_with_factory(GUICommands::Crash(7), 0).rejection.is_none());
    assert_eq!(snapshot(&c), before);
    assert_eq!(c.roster(NodeKind::Drone), &drones);
}

#[test]
fn crash_removes_the_drone_from_every_neighbor() {
    let mut c = network();
    assert!(c.handle_gui_command_with_factory(GUICommands::Crash(3), 0).rejection.is_none());
    assert!(!c.is_in(NodeKind::Drone, 3));
    assert!(c.neighbors(3).is_none());
    for (_, list) in snapshot(&c) {
        assert!(!list.contains(&3));
    }
}

#[test]
fn gui_requests_keep_the_flooding_targets() {
    let mut c = network();
    let flood = c.global_flooding();
    c.handle_gui_command_with_factory(GUICommands::Spawn(8, vec![2], Pdr { bits: 0 }), 1);
    c.handle_gui_command_with_factory(GUICommands::AddSender(8, 4), 0);
    c.handle_gui_command_with_factory(GUICommands::Crash(2), 0);
    assert_eq!(c.global_flooding(), flood);
}

#[test]
fn removal_keeps_each_end_above_its_minimum() {
    let mut c = network();
    // server 5 has three links and may drop one; drone 4 has only one and may not
    assert!(c.handle_gui_command_with_factory(GUICommands::RemoveSender(5, 4), 0).rejection.is_some());
    assert!(c.handle_gui_command_with_factory(GUICommands::RemoveSender(5, 2), 0).rejection.is_none());
    assert_eq!(c.neighbors(5).unwrap(), &vec![3, 4]);
    assert_eq!(c.neighbors(2).unwrap(), &vec![1]);
    assert!(c.handle_gui_command_with_factory(GUICommands::RemoveSender(5, 3), 0).rejection.is_some());
}

#[test]
fn a_client_never_exceeds_two_links() {
    let mut c = network();
    assert!(c.handle_gui_command_with_factory(GUICommands::AddSender(9, 2), 0).rejection.is_none());
    assert_eq!(c.neighbors(9).unwrap().len(), 2);
    assert!(c.handle_gui_command_with_factory(GUICommands::AddSender(9, 3), 0).rejection.is_some());
    assert_eq!(c.neighbors(9).unwrap().len(), 2);
}

#[test]
fn clients_are_never_linked() {
    let mut neighbor: HashMap<u8, Vec<u8>> = HashMap::new();
    neighbor.insert(1, vec![10, 11, 12]);
    neighbor.insert(10, vec![1]);
    neighbor.insert(11, vec![1]);
    neighbor.insert(12, vec![1]);
    let mut c = SimulationController::new(vec![1], neighbor, vec![10, 11], vec![12], vec![], vec![], vec![]);
    let before = snapshot(&c);
    c.handle_gui_command_with_factory(GUICommands::AddSender(10, 11), 0);
    assert_eq!(snapshot(&c), before);
    // a chat client and a media client are not linked either, in both orders
    c.handle_gui_command_with_factory(GUICommands::AddSender(10, 12), 0);
    assert_eq!(snapshot(&c), before);
    c.handle_gui_command_with_factory(GUICommands::AddSender(12, 10), 0);
    assert_eq!(snapshot(&c), before);
    assert_eq!(c.neighbors(10).unwrap(), &vec![1]);
    assert_eq!(c.neighbors(12).unwrap(), &vec![1]);
}

fn symmetric(c: &SimulationController) -> bool {
    let all = snapshot(c);
    all.iter().all(|(a, list)| list.iter().all(|b| c.neighbors(*b).map_or(false, |l| l.contains(a))))
}

#[test]
fn spawn_keeps_links_symmetric() {
    let mut neighbor: HashMap<u8, Vec<u8>> = HashMap::new();
    neighbor.insert(1, vec![2, 5]);
    neighbor.insert(2, vec![1, 3]);
    neighbor.insert(3, vec![2]);
    neighbor.insert(5, vec![1]);
    let mut c = SimulationController::new(vec![1, 2, 3], neighbor, vec![], vec![], vec![5], vec![], vec![]);
    assert!(symmetric(&c));
    c.spawn_with_factory(7, &vec![1, 3], Pdr { bits: 0 }, 2);
    assert!(symmetric(&c));
    assert_eq!(c.neighbors(7).unwrap(), &vec![1, 3]);
    assert_eq!(c.neighbors(1).unwrap(), &vec![2, 5, 7]);
    assert_eq!(c.neighbors(3).unwrap(), &vec![2, 7]);
    assert_eq!(c.neighbors(2).unwrap(), &vec![1, 3]);
}

#[test]
fn crash_unlinks_each_neighbor_and_spares_the_rest() {
    let mut neighbor: HashMap<u8, Vec<u8>> = HashMap::new();
    neighbor.insert(1, vec![2, 5, 3]);
    neighbor.insert(2, vec![1, 3]);
    neighbor.insert(3, vec![2, 1]);
    neighbor.insert(5, vec![1]);
    let mut c = SimulationController::new(vec![1, 2, 3], neighbor, vec![], vec![], vec![5], vec![], vec![]);
    assert!(c.crash(1).is_ok());
    assert_eq!(c.neighbors(2).unwrap(), &vec![3]);
    assert_eq!(c.neighbors(3).unwrap(), &vec![2]);
    assert_eq!(c.neighbors(5).unwrap(), &Vec::<u8>::new());
}

#[test]
fn spawn_over_an_empty_list_keeps_links_symmetric() {
    let mut neighbor: HashMap<u8, Vec<u8>> = HashMap::new();
    neighbor.insert(1, vec![2]);
    neighbor.insert(2, vec![1]);
    neighbor.insert(7, vec![]);
    let mut c = SimulationController::new(vec![1, 2], neighbor, vec![], vec![], vec![], vec![], vec![]);
    assert!(symmetric(&c));
    c.spawn_with_factory(7, &vec![2], Pdr { bits: 0 }, 0);
    assert!(symmetric(&c));
    assert_eq!(c.neighbors(7).unwrap(), &vec![2]);
    assert_eq!(c.neighbors(2).unwrap(), &vec![1, 7]);
    assert_eq!(c.neighbors(1).unwrap(), &vec![2]);
}
