//! Game creation, the phase cycle, the clock and the speed-up rule.

use mafia_server::game::{mock_game, Game, GameOverReason, RejectStartReason};
use mafia_server::packet::ToClientPacket;
use mafia_server::phase::{PhaseState, PhaseType};
use mafia_server::role::chronokaiser::Chronokaiser;
use mafia_server::role::Role;
use mafia_server::settings::{PhaseTimes, Settings};

fn engine_settings(roles: Vec<Role>) -> Settings {
    Settings {
        phase_times: PhaseTimes {
            morning: 10,
            discussion: 40,
            nomination: 30,
            testimony: 20,
            judgement: 20,
            evening: 10,
            night: 60,
            obituary: 10,
        },
        role_list: roles,
        excluded_roles: Vec::new(),
    }
}

#[test]
fn mock_game_seats_roles_in_order() {
    let g = mock_game(
        engine_settings(vec![Role::Sheriff, Role::Doctor, Role::Consort]),
        3,
    )
    .unwrap();
    assert_eq!(g.players.len(), 3);
    assert_eq!(g.players[0].get_name(), "0");
    assert_eq!(g.players[1].get_name(), "1");
    assert_eq!(g.players[2].get_name(), "2");
    assert!(matches!(g.players[0].get_role(), Role::Sheriff));
    assert!(matches!(g.players[1].get_role(), Role::Doctor));
    assert!(matches!(g.players[2].get_role(), Role::Consort));
    assert!(g.players.iter().all(|p| p.alive));
    assert_eq!(g.day_number(), 1);
    assert!(matches!(g.get_current_phase(), PhaseState::Evening));
    assert!(g.ticking);
}

#[test]
fn zero_time_game_rejected() {
    let mut s = engine_settings(vec![Role::Sheriff, Role::Mafioso]);
    s.phase_times = PhaseTimes {
        morning: 0,
        discussion: 0,
        nomination: 0,
        testimony: 0,
        judgement: 0,
        evening: 0,
        night: 0,
        obituary: 0,
    };
    assert!(matches!(mock_game(s, 2), Err(RejectStartReason::ZeroTimeGame)));
}

#[test]
fn role_list_too_small_rejected() {
    let s = engine_settings(vec![Role::Sheriff, Role::Mafioso]);
    assert!(matches!(mock_game(s, 3), Err(RejectStartReason::RoleListTooSmall)));
}

#[test]
fn excluded_role_rejected() {
    let mut s = engine_settings(vec![Role::Sheriff, Role::Mafioso]);
    s.excluded_roles = vec![Role::Mafioso];
    assert!(matches!(
        mock_game(s, 2),
        Err(RejectStartReason::RoleListCannotCreateRoles)
    ));
}

#[test]
fn instantly_decided_roster_rejected() {
    // Town only: a single classification remains at the first breath.
    let s = engine_settings(vec![Role::Sheriff, Role::Doctor]);
    assert!(matches!(
        mock_game(s, 2),
        Err(RejectStartReason::RoleListCannotCreateRoles)
    ));
}

#[test]
fn game_new_deals_every_configured_role() {
    let s = engine_settings(vec![Role::Sheriff, Role::Doctor, Role::Mafioso, Role::Medium]);
    let names = vec![
        String::from("ada"),
        String::from("ben"),
        String::from("cal"),
        String::from("dot"),
    ];
    let g = Game::new(s, names).unwrap();
    assert_eq!(g.players.len(), 4);
    assert_eq!(g.players[0].get_name(), "ada");
    let mut dealt: Vec<&str> = g
        .players
        .iter()
        .map(|p| match p.get_role() {
            Role::Sheriff => "sheriff",
            Role::Doctor => "doctor",
            Role::Mafioso => "mafioso",
            Role::Medium => "medium",
            _ => "other",
        })
        .collect();
    dealt.sort();
    assert_eq!(dealt, vec!["doctor", "mafioso", "medium", "sheriff"]);
}

#[test]
fn phase_cycle_follows_the_fixed_order() {
    let s = engine_settings(vec![
        Role::Sheriff,
        Role::Doctor,
        Role::Mafioso,
        Role::Consort,
        Role::Medium,
    ]);
    let mut g = mock_game(s, 5).unwrap();
    assert!(matches!(g.get_current_phase(), PhaseState::Evening));
    g.end_phase();
    assert!(matches!(g.get_current_phase(), PhaseState::Night));
    g.end_phase();
    assert!(matches!(g.get_current_phase(), PhaseState::Obituary));
    assert_eq!(g.day_number(), 1);
    g.end_phase();
    assert!(matches!(g.get_current_phase(), PhaseState::Morning));
    assert_eq!(g.day_number(), 2);
    g.end_phase();
    assert!(matches!(g.get_current_phase(), PhaseState::Discussion));
    g.end_phase();
    assert!(matches!(
        g.get_current_phase(),
        PhaseState::Nomination { trials_left: 3 }
    ));
    g.end_phase();
    assert!(matches!(g.get_current_phase(), PhaseState::Evening));
}

#[test]
fn speed_up_rule_halves_at_three_alive() {
    let s = engine_settings(vec![
        Role::Sheriff,
        Role::Sheriff,
        Role::Sheriff,
        Role::Sheriff,
        Role::Doctor,
        Role::Doctor,
        Role::Medium,
        Role::Medium,
        Role::Mafioso,
        Role::Consort,
    ]);
    let mut g = mock_game(s, 10).unwrap();
    g.start_phase(PhaseState::Night);
    assert_eq!(g.phase_machine.time_remaining, 60);
    // Deaths drop the living count to exactly three before the next night.
    for i in 0..7 {
        g.players[i].alive = false;
    }
    g.start_phase(PhaseState::Night);
    assert_eq!(g.phase_machine.time_remaining, 30);
}

#[test]
fn tick_decrements_and_saturates_at_zero() {
    let s = engine_settings(vec![Role::Sheriff, Role::Doctor, Role::Mafioso, Role::Medium]);
    let mut g = mock_game(s, 4).unwrap();
    g.phase_machine.time_remaining = 60;
    g.tick(13);
    assert_eq!(g.phase_machine.time_remaining, 47);
    g.tick(100);
    assert_eq!(g.phase_machine.time_remaining, 0);
}

#[test]
fn tick_stops_once_the_game_is_over() {
    let s = engine_settings(vec![Role::Sheriff, Role::Doctor, Role::Mafioso]);
    let mut g = mock_game(s, 3).unwrap();
    g.players[2].alive = false;
    g.tick(1);
    assert!(!g.ticking);
    assert!(matches!(
        g.outbox.last(),
        Some(ToClientPacket::GameOver { reason: GameOverReason::Winner })
    ));
}

#[test]
fn stalemate_cutoff_at_the_final_day() {
    let s = engine_settings(vec![Role::Sheriff, Role::Doctor, Role::Mafioso]);
    let mut g = mock_game(s, 3).unwrap();
    g.phase_machine.day_number = 255;
    g.tick(1);
    assert!(!g.ticking);
    assert!(matches!(
        g.outbox.last(),
        Some(ToClientPacket::GameOver { reason: GameOverReason::ReachedMaxDay })
    ));
}

#[test]
fn chronokaiser_speed_percent_grows_by_day() {
    let s = engine_settings(vec![
        Role::Chronokaiser,
        Role::Sheriff,
        Role::Doctor,
        Role::Mafioso,
        Role::Medium,
    ]);
    let mut g = mock_game(s, 5).unwrap();
    assert_eq!(Chronokaiser::get_speed_up_percent(&g), 0);
    g.phase_machine.day_number = 3;
    assert_eq!(Chronokaiser::get_speed_up_percent(&g), 70);
    assert!(Chronokaiser::won(&g, 0));
    g.players[0].alive = false;
    assert!(!Chronokaiser::won(&g, 0));
}

#[test]
fn chronokaiser_scales_the_phase_clock() {
    let s = engine_settings(vec![
        Role::Chronokaiser,
        Role::Sheriff,
        Role::Doctor,
        Role::Mafioso,
        Role::Medium,
    ]);
    let mut g = mock_game(s, 5).unwrap();
    g.phase_machine.day_number = 2;
    g.start_phase(PhaseState::Discussion);
    // Base 40 seconds, sped up by 35 percent: 40 * 100 / 135 = 29.
    assert_eq!(g.phase_machine.time_remaining, 29);
    assert_eq!(g.day_number(), 2);
    let announced = g.chat_log.iter().any(|e| {
        matches!(
            e.message,
            mafia_server::chat::ChatMessage::ChronokaiserSpeedUp { percent: 35 }
        )
    });
    assert!(announced);
}

#[test]
fn phase_change_packets_are_emitted_in_order() {
    let s = engine_settings(vec![Role::Sheriff, Role::Doctor, Role::Mafioso, Role::Medium]);
    let mut g = mock_game(s, 4).unwrap();
    let before = g.outbox.len();
    g.start_phase(PhaseState::Night);
    assert_eq!(g.outbox.len(), before + 1);
    assert!(matches!(
        g.outbox.last(),
        Some(ToClientPacket::PhaseChange { phase: PhaseType::Night, day_number: 1 })
    ));
}
