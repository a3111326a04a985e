//! Night resolution: buckets, adjudication, deaths, and determinism.

use mafia_server::ability_input::{AbilitySelection, ControllerID};
use mafia_server::chat::{ChatMessage, NightInformation};
use mafia_server::game::{mock_game, Game};
use mafia_server::grave::GraveKiller;
use mafia_server::phase::{PhaseState, PhaseType};
use mafia_server::role::jailor::Jailor;
use mafia_server::role::{Faction, Role, RoleState};
use mafia_server::settings::{PhaseTimes, Settings};
use mafia_server::syndicate_gun_item::SyndicateGunItem;

fn night_settings(roles: Vec<Role>) -> Settings {
    Settings {
        phase_times: PhaseTimes {
            morning: 10,
            discussion: 40,
            nomination: 30,
            testimony: 20,
            judgement: 20,
            evening: 10,
            night: 60,
            obituary: 10,
        },
        role_list: roles,
        excluded_roles: Vec::new(),
    }
}

fn sheriff_results_for(g: &Game, who: u8) -> Vec<bool> {
    g.chat_log
        .iter()
        .filter(|e| e.recipients.contains(&who))
        .filter_map(|e| match e.message {
            ChatMessage::NightInformation {
                night_information: NightInformation::SheriffResult { suspicious },
            } => Some(suspicious),
            _ => None,
        })
        .collect()
}

#[test]
fn consort_roleblocks_and_notifies_the_target() {
    let mut g = mock_game(
        night_settings(vec![Role::Consort, Role::Sheriff, Role::Doctor]),
        3,
    )
    .unwrap();
    g.phase_machine.current_state = PhaseState::Night;
    g.players[0].chosen_targets = vec![1];
    g.resolve_night();
    assert!(g.players[1].night.roleblocked);
    let notified = g.chat_log.iter().any(|e| {
        e.recipients == vec![1]
            && matches!(
                e.message,
                ChatMessage::NightInformation {
                    night_information: NightInformation::RoleBlocked
                }
            )
    });
    assert!(notified);
}

#[test]
fn roleblock_silences_the_investigator_that_night() {
    // Participant 0 (blocker) targets participant 1 (an investigator);
    // 1's investigative action must no-op that night.
    let mut g = mock_game(
        night_settings(vec![Role::Consort, Role::Sheriff, Role::Doctor]),
        3,
    )
    .unwrap();
    g.phase_machine.current_state = PhaseState::Night;
    g.players[0].chosen_targets = vec![1];
    g.players[1].chosen_targets = vec![2];
    g.resolve_night();
    assert!(g.players[1].night.roleblocked);
    assert_eq!(sheriff_results_for(&g, 1), Vec::<bool>::new());
}

#[test]
fn unblocked_sheriff_learns_the_check() {
    let mut g = mock_game(
        night_settings(vec![Role::Consort, Role::Sheriff, Role::Doctor]),
        3,
    )
    .unwrap();
    g.phase_machine.current_state = PhaseState::Night;
    g.players[1].chosen_targets = vec![0];
    g.resolve_night();
    // A consort reads as suspicious.
    assert_eq!(sheriff_results_for(&g, 1), vec![true]);
}

#[test]
fn sheriff_reads_town_as_not_suspicious() {
    let mut g = mock_game(
        night_settings(vec![Role::Consort, Role::Sheriff, Role::Doctor]),
        3,
    )
    .unwrap();
    g.phase_machine.current_state = PhaseState::Night;
    g.players[1].chosen_targets = vec![2];
    g.resolve_night();
    assert_eq!(sheriff_results_for(&g, 1), vec![false]);
}

#[test]
fn mafioso_kill_produces_one_grave() {
    let mut g = mock_game(
        night_settings(vec![Role::Mafioso, Role::Sheriff, Role::Doctor]),
        3,
    )
    .unwrap();
    g.phase_machine.current_state = PhaseState::Night;
    g.players[0].chosen_targets = vec![1];
    g.resolve_night();
    assert!(!g.players[1].alive);
    assert!(g.players[1].night.attacked);
    assert_eq!(g.graves.len(), 1);
    assert_eq!(g.graves[0].player, 1);
    assert!(matches!(g.graves[0].role, Role::Sheriff));
    assert_eq!(g.graves[0].day_number, 1);
    assert_eq!(g.graves[0].killers.len(), 1);
    assert!(matches!(g.graves[0].killers[0], GraveKiller::Faction(Faction::Mafia)));
}

#[test]
fn doctor_heal_outranks_a_basic_attack() {
    let mut g = mock_game(
        night_settings(vec![Role::Mafioso, Role::Doctor, Role::Sheriff]),
        3,
    )
    .unwrap();
    g.phase_machine.current_state = PhaseState::Night;
    g.players[0].chosen_targets = vec![2];
    g.players[1].chosen_targets = vec![2];
    g.resolve_night();
    assert!(g.players[2].alive);
    assert!(g.graves.is_empty());
    assert!(matches!(
        g.players[2].night.defense,
        mafia_server::attack_power::DefensePower::Powerful
    ));
}

#[test]
fn jailor_executes_the_detained_and_spends_one_execution() {
    let mut g = mock_game(
        night_settings(vec![Role::Jailor, Role::Mafioso, Role::Sheriff]),
        3,
    )
    .unwrap();
    g.players[0].role_state = RoleState::Jailor(Jailor {
        jailed_target_ref: Some(1),
        executions_remaining: 3,
    });
    g.start_phase(PhaseState::Night);
    assert!(g.players[1].night.detained);
    g.players[0].chosen_targets = vec![1];
    g.resolve_night();
    assert!(!g.players[1].alive);
    assert_eq!(g.graves.len(), 1);
    assert!(matches!(g.graves[0].killers[0], GraveKiller::Role(Role::Jailor)));
    match g.players[0].role_state {
        RoleState::Jailor(js) => assert_eq!(js.executions_remaining, 2),
        _ => panic!("jailor state lost"),
    }
}

#[test]
fn jailor_forfeits_all_executions_on_a_town_victim() {
    let mut g = mock_game(
        night_settings(vec![Role::Jailor, Role::Sheriff, Role::Mafioso]),
        3,
    )
    .unwrap();
    g.players[0].role_state = RoleState::Jailor(Jailor {
        jailed_target_ref: Some(1),
        executions_remaining: 3,
    });
    g.start_phase(PhaseState::Night);
    g.players[0].chosen_targets = vec![1];
    g.resolve_night();
    assert!(!g.players[1].alive);
    match g.players[0].role_state {
        RoleState::Jailor(js) => assert_eq!(js.executions_remaining, 0),
        _ => panic!("jailor state lost"),
    }
}

#[test]
fn spent_executions_never_go_negative_and_block_further_kills() {
    let mut g = mock_game(
        night_settings(vec![Role::Jailor, Role::Mafioso, Role::Sheriff]),
        3,
    )
    .unwrap();
    g.players[0].role_state = RoleState::Jailor(Jailor {
        jailed_target_ref: Some(1),
        executions_remaining: 0,
    });
    g.start_phase(PhaseState::Night);
    g.players[0].chosen_targets = vec![1];
    g.resolve_night();
    assert!(g.players[1].alive);
    assert!(g.graves.is_empty());
    match g.players[0].role_state {
        RoleState::Jailor(js) => assert_eq!(js.executions_remaining, 0),
        _ => panic!("jailor state lost"),
    }
}

#[test]
fn night_resolution_is_deterministic() {
    let build = || {
        let mut g = mock_game(
            night_settings(vec![
                Role::Consort,
                Role::Sheriff,
                Role::Mafioso,
                Role::Doctor,
                Role::Medium,
            ]),
            5,
        )
        .unwrap();
        g.phase_machine.current_state = PhaseState::Night;
        g.players[0].chosen_targets = vec![3];
        g.players[1].chosen_targets = vec![2];
        g.players[2].chosen_targets = vec![4];
        g.players[3].chosen_targets = vec![4];
        g.resolve_night();
        g
    };
    let a = build();
    let b = build();
    assert_eq!(a.graves.len(), b.graves.len());
    for (ga, gb) in a.graves.iter().zip(b.graves.iter()) {
        assert_eq!(ga.player, gb.player);
        assert_eq!(ga.day_number, gb.day_number);
        assert_eq!(ga.killers, gb.killers);
        assert!(matches!((ga.role, gb.role), (Role::Medium, Role::Medium)));
    }
    for (pa, pb) in a.players.iter().zip(b.players.iter()) {
        assert_eq!(pa.alive, pb.alive);
        assert_eq!(pa.night, pb.night);
    }
}

#[test]
fn simultaneous_fatal_causes_share_one_grave() {
    let mut g = mock_game(
        night_settings(vec![Role::Jailor, Role::Mafioso, Role::Sheriff]),
        3,
    )
    .unwrap();
    g.players[0].role_state = RoleState::Jailor(Jailor {
        jailed_target_ref: Some(2),
        executions_remaining: 3,
    });
    g.start_phase(PhaseState::Night);
    g.players[0].chosen_targets = vec![2];
    g.players[1].chosen_targets = vec![2];
    g.resolve_night();
    assert!(!g.players[2].alive);
    assert_eq!(g.graves.len(), 1);
    assert_eq!(g.graves[0].player, 2);
    assert_eq!(g.graves[0].killers.len(), 2);
    assert!(matches!(g.graves[0].killers[0], GraveKiller::Role(Role::Jailor)));
    assert!(matches!(g.graves[0].killers[1], GraveKiller::Faction(Faction::Mafia)));
}

#[test]
fn syndicate_gun_shoots_the_stored_target() {
    let mut g = mock_game(
        night_settings(vec![Role::Mafioso, Role::Consort, Role::Sheriff, Role::Doctor]),
        4,
    )
    .unwrap();
    g.syndicate_gun_item.player_with_gun = Some(0);
    g.phase_machine.day_number = 2;
    g.update_controllers(PhaseType::Morning);
    let set = g.saved_controllers.set_selection(
        ControllerID::syndicate_gun_item_shoot(),
        AbilitySelection::OnePlayerOption { selection: Some(2) },
    );
    assert!(set.is_ok());
    g.phase_machine.current_state = PhaseState::Night;
    g.resolve_night();
    assert!(!g.players[2].alive);
    assert_eq!(g.graves.len(), 1);
    assert!(matches!(g.graves[0].killers[0], GraveKiller::Faction(Faction::Mafia)));
}

#[test]
fn syndicate_gun_passes_to_the_last_living_mafia_member() {
    let mut g = mock_game(
        night_settings(vec![Role::Mafioso, Role::Consort, Role::Sheriff, Role::Doctor]),
        4,
    )
    .unwrap();
    g.syndicate_gun_item.player_with_gun = Some(0);
    g.players[0].alive = false;
    SyndicateGunItem::on_any_death(&mut g, 0);
    assert_eq!(g.syndicate_gun_item.player_with_gun, Some(1));
    g.players[1].alive = false;
    SyndicateGunItem::on_any_death(&mut g, 1);
    assert_eq!(g.syndicate_gun_item.player_with_gun, None);
}

#[test]
fn the_gun_is_inherited_when_its_holder_dies_at_night() {
    let mut g = mock_game(
        night_settings(vec![Role::Sheriff, Role::Mafioso, Role::Consort]),
        3,
    )
    .unwrap();
    g.syndicate_gun_item.player_with_gun = Some(2);
    g.phase_machine.current_state = PhaseState::Night;
    g.players[1].chosen_targets = vec![2];
    g.resolve_night();
    assert!(!g.players[2].alive);
    // The dead consort's gun passes to the last living mafia member.
    assert_eq!(g.syndicate_gun_item.player_with_gun, Some(1));
}

#[test]
fn transient_attributes_reset_at_night_start() {
    let mut g = mock_game(
        night_settings(vec![Role::Consort, Role::Sheriff, Role::Mafioso]),
        3,
    )
    .unwrap();
    g.phase_machine.current_state = PhaseState::Night;
    g.players[0].chosen_targets = vec![1];
    g.resolve_night();
    assert!(g.players[1].night.roleblocked);
    g.start_phase(PhaseState::Night);
    assert!(!g.players[1].night.roleblocked);
    assert!(!g.players[1].night.detained);
}
