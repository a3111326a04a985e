//! Channel membership and the derived chat-visibility computation.

use mafia_server::ability_input::{AbilitySelection, ControllerID};
use mafia_server::chat::{ChatGroup, ChatMessage};
use mafia_server::game::mock_game;
use mafia_server::phase::{PhaseState, PhaseType};
use mafia_server::role::{reporter::Reporter, Role, RoleState};
use mafia_server::settings::{PhaseTimes, Settings};

fn chat_settings(roles: Vec<Role>) -> Settings {
    Settings {
        phase_times: PhaseTimes {
            morning: 10,
            discussion: 40,
            nomination: 30,
            testimony: 20,
            judgement: 20,
            evening: 10,
            night: 60,
            obituary: 10,
        },
        role_list: roles,
        excluded_roles: Vec::new(),
    }
}

#[test]
fn everyone_is_in_the_global_channel() {
    let g = mock_game(
        chat_settings(vec![Role::Sheriff, Role::Mafioso, Role::Medium]),
        3,
    )
    .unwrap();
    let members = ChatGroup::All.all_players_in_group(&g);
    assert_eq!(members, vec![0, 1, 2]);
}

#[test]
fn the_dead_channel_holds_only_the_dead() {
    let mut g = mock_game(
        chat_settings(vec![Role::Sheriff, Role::Mafioso, Role::Medium]),
        3,
    )
    .unwrap();
    g.players[0].alive = false;
    assert!(ChatGroup::Dead.player_in_group(&g, 0));
    assert!(!ChatGroup::Dead.player_in_group(&g, 1));
    // A living medium is not a member; the seance is a receive window.
    assert!(!ChatGroup::Dead.player_in_group(&g, 2));
}

#[test]
fn the_living_medium_receives_the_dead_channel_at_night() {
    let mut g = mock_game(
        chat_settings(vec![Role::Sheriff, Role::Mafioso, Role::Medium]),
        3,
    )
    .unwrap();
    let medium = g.players[2].get_role();
    g.phase_machine.current_state = PhaseState::Night;
    assert!(medium.get_current_receive_chat_groups(&g, 2).contains(&ChatGroup::Dead));
    g.phase_machine.current_state = PhaseState::Discussion;
    assert!(!medium.get_current_receive_chat_groups(&g, 2).contains(&ChatGroup::Dead));
}

#[test]
fn the_mafia_channel_holds_the_faction() {
    let g = mock_game(
        chat_settings(vec![Role::Sheriff, Role::Mafioso, Role::Consort, Role::Medium]),
        4,
    )
    .unwrap();
    assert_eq!(ChatGroup::Mafia.all_players_in_group(&g), vec![1, 2]);
}

#[test]
fn send_groups_follow_the_phase() {
    let mut g = mock_game(
        chat_settings(vec![Role::Sheriff, Role::Consort, Role::Medium]),
        3,
    )
    .unwrap();
    g.phase_machine.current_state = PhaseState::Discussion;
    let sheriff = g.players[0].get_role();
    assert_eq!(sheriff.get_current_send_chat_groups(&g, 0), vec![ChatGroup::All]);
    g.phase_machine.current_state = PhaseState::Morning;
    assert!(sheriff.get_current_send_chat_groups(&g, 0).is_empty());
    g.phase_machine.current_state = PhaseState::Night;
    assert!(sheriff.get_current_send_chat_groups(&g, 0).is_empty());
    let consort = g.players[1].get_role();
    assert_eq!(consort.get_current_send_chat_groups(&g, 1), vec![ChatGroup::Mafia]);
    let medium = g.players[2].get_role();
    assert_eq!(medium.get_current_send_chat_groups(&g, 2), vec![ChatGroup::Dead]);
}

#[test]
fn the_dead_speak_only_with_the_dead() {
    let mut g = mock_game(
        chat_settings(vec![Role::Sheriff, Role::Consort, Role::Medium]),
        3,
    )
    .unwrap();
    g.phase_machine.current_state = PhaseState::Discussion;
    g.players[0].alive = false;
    let role = g.players[0].get_role();
    assert_eq!(role.get_current_send_chat_groups(&g, 0), vec![ChatGroup::Dead]);
}

#[test]
fn a_detained_participant_speaks_only_in_jail() {
    let mut g = mock_game(
        chat_settings(vec![Role::Sheriff, Role::Consort, Role::Medium]),
        3,
    )
    .unwrap();
    g.phase_machine.current_state = PhaseState::Night;
    g.players[1].night.detained = true;
    let role = g.players[1].get_role();
    assert_eq!(role.get_current_send_chat_groups(&g, 1), vec![ChatGroup::Jail]);
    assert!(ChatGroup::Jail.player_in_group(&g, 1));
}

#[test]
fn chat_visibility_is_pure() {
    // For a fixed phase, alive and transient-state tuple, two calls return
    // identical sets.
    let mut g = mock_game(
        chat_settings(vec![Role::Jailor, Role::Consort, Role::Medium, Role::Sheriff]),
        4,
    )
    .unwrap();
    g.phase_machine.current_state = PhaseState::Night;
    g.players[1].night.detained = true;
    for i in 0..4u8 {
        let role = g.players[i as usize].get_role();
        let first = role.get_current_send_chat_groups(&g, i);
        let second = role.get_current_send_chat_groups(&g, i);
        assert_eq!(first, second);
        let r1 = role.get_current_receive_chat_groups(&g, i);
        let r2 = role.get_current_receive_chat_groups(&g, i);
        assert_eq!(r1, r2);
    }
}

#[test]
fn the_jail_channel_materializes_while_someone_is_detained() {
    let mut g = mock_game(
        chat_settings(vec![Role::Jailor, Role::Consort, Role::Medium, Role::Sheriff]),
        4,
    )
    .unwrap();
    g.phase_machine.current_state = PhaseState::Night;
    let jailor = g.players[0].get_role();
    assert!(jailor.get_current_send_chat_groups(&g, 0).is_empty());
    g.players[1].night.detained = true;
    assert_eq!(jailor.get_current_send_chat_groups(&g, 0), vec![ChatGroup::Jail]);
    let receive = jailor.get_current_receive_chat_groups(&g, 0);
    assert!(receive.contains(&ChatGroup::Jail));
    assert!(receive.contains(&ChatGroup::All));
}

#[test]
fn the_interview_channel_materializes_while_an_interview_runs() {
    let mut g = mock_game(
        chat_settings(vec![Role::Reporter, Role::Sheriff, Role::Mafioso]),
        3,
    )
    .unwrap();
    g.phase_machine.current_state = PhaseState::Night;
    g.players[0].role_state = RoleState::Reporter(Reporter { interviewed_target: Some(1) });
    let reporter = g.players[0].get_role();
    assert_eq!(
        reporter.get_current_send_chat_groups(&g, 0),
        vec![ChatGroup::Interview]
    );
    assert!(ChatGroup::Interview.player_in_group(&g, 0));
    assert!(ChatGroup::Interview.player_in_group(&g, 1));
    assert!(!ChatGroup::Interview.player_in_group(&g, 2));
}

#[test]
fn deliveries_preserve_emission_order() {
    let mut g = mock_game(
        chat_settings(vec![Role::Sheriff, Role::Mafioso, Role::Medium]),
        3,
    )
    .unwrap();
    let start = g.chat_log.len();
    g.add_message_to_chat_group(ChatGroup::All, ChatMessage::MayorCantWhisper);
    g.add_message_to_chat_group(ChatGroup::All, ChatMessage::JailorDecideExecuteYou);
    assert_eq!(g.chat_log.len(), start + 2);
    assert!(matches!(g.chat_log[start].message, ChatMessage::MayorCantWhisper));
    assert!(matches!(
        g.chat_log[start + 1].message,
        ChatMessage::JailorDecideExecuteYou
    ));
    assert_eq!(g.chat_log[start].recipients, vec![0, 1, 2]);
}

#[test]
fn reporter_publishes_the_stored_report() {
    let mut g = mock_game(
        chat_settings(vec![Role::Reporter, Role::Sheriff, Role::Mafioso]),
        3,
    )
    .unwrap();
    g.update_controllers(PhaseType::Morning);
    assert!(g
        .saved_controllers
        .set_selection(
            ControllerID::role(0, Role::Reporter, 1),
            AbilitySelection::Boolean { selection: true },
        )
        .is_ok());
    assert!(g
        .saved_controllers
        .set_selection(
            ControllerID::role(0, Role::Reporter, 2),
            AbilitySelection::Text { selection: String::from("the scoop of the season") },
        )
        .is_ok());
    g.phase_machine.current_state = PhaseState::Night;
    g.resolve_night();
    let published = g.chat_log.iter().any(|e| {
        e.recipients == vec![0, 1, 2]
            && match &e.message {
                ChatMessage::ReporterReport { report } => report == "the scoop of the season",
                _ => false,
            }
    });
    assert!(published);
}

#[test]
fn reporter_interview_opens_at_night_start() {
    let mut g = mock_game(
        chat_settings(vec![Role::Reporter, Role::Sheriff, Role::Mafioso]),
        3,
    )
    .unwrap();
    g.update_controllers(PhaseType::Morning);
    assert!(g
        .saved_controllers
        .set_selection(
            ControllerID::role(0, Role::Reporter, 0),
            AbilitySelection::OnePlayerOption { selection: Some(1) },
        )
        .is_ok());
    g.start_phase(PhaseState::Night);
    match g.players[0].role_state {
        RoleState::Reporter(rs) => assert_eq!(rs.interviewed_target, Some(1)),
        _ => panic!("reporter state lost"),
    }
    let told = g.chat_log.iter().any(|e| {
        matches!(
            e.message,
            ChatMessage::PlayerIsBeingInterviewed { player_index: 1 }
        )
    });
    assert!(told);
    // The interview pick is declared to reset at night start.
    assert_eq!(
        g.saved_controllers
            .get_controller_current_selection_player_option(ControllerID::role(
                0,
                Role::Reporter,
                0
            )),
        Some(None)
    );
}
