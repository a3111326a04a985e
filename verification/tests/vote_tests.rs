//! Vote tallies, trials, verdicts, the win evaluator and inbound messages.

use mafia_server::chat::ChatMessage;
use mafia_server::game::mock_game;
use mafia_server::grave::GraveKiller;
use mafia_server::on_client_message::ToServerPacket;
use mafia_server::packet::ToClientPacket;
use mafia_server::phase::PhaseState;
use mafia_server::role::{mayor::Mayor, Role, RoleState};
use mafia_server::settings::{PhaseTimes, Settings};
use mafia_server::verdict::Verdict;

fn trial_settings(roles: Vec<Role>) -> Settings {
    Settings {
        phase_times: PhaseTimes {
            morning: 10,
            discussion: 40,
            nomination: 30,
            testimony: 20,
            judgement: 20,
            evening: 10,
            night: 60,
            obituary: 10,
        },
        role_list: roles,
        excluded_roles: Vec::new(),
    }
}

fn five_town_one_mafia() -> Vec<Role> {
    vec![Role::Sheriff, Role::Sheriff, Role::Sheriff, Role::Sheriff, Role::Mafioso]
}

#[test]
fn a_strict_majority_starts_the_trial() {
    let mut g = mock_game(trial_settings(five_town_one_mafia()), 5).unwrap();
    g.phase_machine.current_state = PhaseState::Nomination { trials_left: 3 };
    g.players[1].chosen_vote = Some(0);
    g.players[2].chosen_vote = Some(0);
    g.players[3].chosen_vote = Some(0);
    g.count_votes_and_start_trial();
    assert!(matches!(
        g.get_current_phase(),
        PhaseState::Testimony { trials_left: 2, player_on_trial: 0 }
    ));
    let on_trial_announced = g
        .outbox
        .iter()
        .any(|p| matches!(p, ToClientPacket::PlayerOnTrial { player_index: 0 }));
    assert!(on_trial_announced);
}

#[test]
fn no_majority_means_no_transition_yet() {
    let mut g = mock_game(trial_settings(five_town_one_mafia()), 5).unwrap();
    g.phase_machine.current_state = PhaseState::Nomination { trials_left: 3 };
    g.players[1].chosen_vote = Some(0);
    g.players[2].chosen_vote = Some(3);
    g.count_votes_and_start_trial();
    assert!(matches!(
        g.get_current_phase(),
        PhaseState::Nomination { trials_left: 3 }
    ));
    assert!(matches!(
        g.outbox.last(),
        Some(ToClientPacket::PlayerVotes { .. })
    ));
}

#[test]
fn a_revealed_mayor_votes_with_the_weight_of_three() {
    let mut g = mock_game(
        trial_settings(vec![
            Role::Mayor,
            Role::Sheriff,
            Role::Sheriff,
            Role::Sheriff,
            Role::Mafioso,
        ]),
        5,
    )
    .unwrap();
    g.players[0].role_state = RoleState::Mayor(Mayor { revealed: true });
    g.phase_machine.current_state = PhaseState::Nomination { trials_left: 3 };
    g.players[0].chosen_vote = Some(1);
    g.count_votes_and_start_trial();
    // Three weighted votes out of five living is a strict majority.
    assert!(matches!(
        g.get_current_phase(),
        PhaseState::Testimony { trials_left: 2, player_on_trial: 1 }
    ));
}

#[test]
fn verdict_tallies_weight_the_revealed_mayor() {
    let mut g = mock_game(
        trial_settings(vec![
            Role::Mayor,
            Role::Sheriff,
            Role::Sheriff,
            Role::Sheriff,
            Role::Mafioso,
        ]),
        5,
    )
    .unwrap();
    g.players[0].role_state = RoleState::Mayor(Mayor { revealed: true });
    g.players[0].verdict = Verdict::Guilty;
    g.players[1].verdict = Verdict::Innocent;
    g.players[2].verdict = Verdict::Abstain;
    g.players[3].verdict = Verdict::Guilty;
    let (guilty, innocent) = g.count_verdict_votes(4);
    assert_eq!((guilty, innocent), (4, 1));
}

#[test]
fn the_accused_and_the_dead_do_not_vote() {
    let mut g = mock_game(trial_settings(five_town_one_mafia()), 5).unwrap();
    g.players[0].verdict = Verdict::Guilty;
    g.players[1].verdict = Verdict::Guilty;
    g.players[1].alive = false;
    g.players[2].verdict = Verdict::Innocent;
    let (guilty, innocent) = g.count_verdict_votes(0);
    assert_eq!((guilty, innocent), (0, 1));
}

#[test]
fn a_guilty_majority_executes_at_judgement_end() {
    let mut g = mock_game(trial_settings(five_town_one_mafia()), 5).unwrap();
    g.phase_machine.current_state = PhaseState::Judgement { trials_left: 2, player_on_trial: 4 };
    g.players[0].verdict = Verdict::Guilty;
    g.players[1].verdict = Verdict::Guilty;
    g.players[2].verdict = Verdict::Innocent;
    g.end_phase();
    assert!(matches!(g.get_current_phase(), PhaseState::Evening));
    assert!(!g.players[4].alive);
    assert_eq!(g.graves.len(), 1);
    assert_eq!(g.graves[0].player, 4);
    assert!(matches!(g.graves[0].killers[0], GraveKiller::Trial));
    let verdict_told = g.chat_log.iter().any(|e| {
        matches!(
            e.message,
            ChatMessage::TrialVerdict { player_on_trial: 4, innocent: 1, guilty: 2 }
        )
    });
    assert!(verdict_told);
}

#[test]
fn an_innocent_verdict_returns_to_nomination_while_trials_remain() {
    let mut g = mock_game(trial_settings(five_town_one_mafia()), 5).unwrap();
    g.phase_machine.current_state = PhaseState::Judgement { trials_left: 2, player_on_trial: 4 };
    g.players[0].verdict = Verdict::Innocent;
    g.end_phase();
    assert!(matches!(
        g.get_current_phase(),
        PhaseState::Nomination { trials_left: 2 }
    ));
    assert!(g.players[4].alive);
    assert!(g.graves.is_empty());
}

#[test]
fn game_over_needs_a_single_remaining_classification() {
    // Three participants alive, two share the town classification and one
    // holds a lone win condition: the game continues. Remove the town pair
    // and it ends.
    let mut g = mock_game(
        trial_settings(vec![Role::Sheriff, Role::Doctor, Role::Chronokaiser]),
        3,
    )
    .unwrap();
    assert!(!g.game_is_over());
    g.players[0].alive = false;
    g.players[1].alive = false;
    assert!(g.game_is_over());
}

#[test]
fn multiple_lone_amnesiacs_keep_the_game_running() {
    let mut g = mock_game(
        trial_settings(vec![Role::Amnesiac, Role::Amnesiac, Role::Mafioso, Role::Sheriff]),
        4,
    )
    .unwrap();
    assert!(!g.game_is_over());
    g.players[2].alive = false;
    g.players[3].alive = false;
    // No classification remains, but two amnesiacs still live.
    assert!(!g.game_is_over());
    g.players[1].alive = false;
    assert!(g.game_is_over());
}

#[test]
fn vote_messages_drive_the_trial() {
    let mut g = mock_game(trial_settings(five_town_one_mafia()), 5).unwrap();
    g.phase_machine.current_state = PhaseState::Nomination { trials_left: 3 };
    g.on_client_message(1, ToServerPacket::Vote { player_index: Some(4) });
    g.on_client_message(2, ToServerPacket::Vote { player_index: Some(4) });
    assert!(matches!(g.get_current_phase(), PhaseState::Nomination { .. }));
    g.on_client_message(3, ToServerPacket::Vote { player_index: Some(4) });
    assert!(matches!(
        g.get_current_phase(),
        PhaseState::Testimony { trials_left: 2, player_on_trial: 4 }
    ));
}

#[test]
fn messages_from_unknown_indices_change_nothing() {
    let mut g = mock_game(trial_settings(five_town_one_mafia()), 5).unwrap();
    g.phase_machine.current_state = PhaseState::Nomination { trials_left: 3 };
    let log_len = g.chat_log.len();
    g.on_client_message(200, ToServerPacket::Vote { player_index: Some(0) });
    assert!(matches!(
        g.get_current_phase(),
        PhaseState::Nomination { trials_left: 3 }
    ));
    assert_eq!(g.chat_log.len(), log_len);
}

#[test]
fn judgement_messages_record_the_verdict() {
    let mut g = mock_game(trial_settings(five_town_one_mafia()), 5).unwrap();
    g.phase_machine.current_state = PhaseState::Judgement { trials_left: 2, player_on_trial: 4 };
    g.on_client_message(1, ToServerPacket::Judgement { verdict: Verdict::Guilty });
    assert!(matches!(g.players[1].verdict, Verdict::Guilty));
    // The accused cannot vote on their own trial.
    g.on_client_message(4, ToServerPacket::Judgement { verdict: Verdict::Innocent });
    assert!(matches!(g.players[4].verdict, Verdict::Abstain));
}

#[test]
fn wills_and_notes_are_saved() {
    let mut g = mock_game(trial_settings(five_town_one_mafia()), 5).unwrap();
    g.on_client_message(0, ToServerPacket::SaveWill { will: String::from("trust nobody") });
    g.on_client_message(0, ToServerPacket::SaveNotes { notes: String::from("watch seat 4") });
    assert_eq!(g.players[0].will, "trust nobody");
    assert_eq!(g.players[0].notes, "watch seat 4");
}

#[test]
fn whispers_are_announced_and_delivered_privately() {
    let mut g = mock_game(trial_settings(five_town_one_mafia()), 5).unwrap();
    g.phase_machine.current_state = PhaseState::Discussion;
    g.on_client_message(
        0,
        ToServerPacket::SendWhisper { player_index: 2, text: String::from("psst") },
    );
    let broadcast = g.chat_log.iter().any(|e| {
        matches!(
            e.message,
            ChatMessage::BroadcastWhisper { whisperer: 0, whisperee: 2 }
        )
    });
    assert!(broadcast);
    let private = g.chat_log.iter().any(|e| {
        e.recipients == vec![0, 2]
            && match &e.message {
                ChatMessage::Whisper { from_player_index: 0, to_player_index: 2, text } => {
                    text == "psst"
                },
                _ => false,
            }
    });
    assert!(private);
}

#[test]
fn night_target_messages_store_validated_selections() {
    let mut g = mock_game(
        trial_settings(vec![Role::Sheriff, Role::Consort, Role::Mafioso]),
        3,
    )
    .unwrap();
    g.phase_machine.current_state = PhaseState::Night;
    // A sheriff cannot select themselves; the first valid target sticks.
    g.on_client_message(0, ToServerPacket::Target { player_index_list: vec![0, 2] });
    assert_eq!(g.players[0].chosen_targets, vec![2]);
}

#[test]
fn chat_messages_reach_every_current_channel() {
    let mut g = mock_game(trial_settings(five_town_one_mafia()), 5).unwrap();
    g.phase_machine.current_state = PhaseState::Discussion;
    g.on_client_message(0, ToServerPacket::SendMessage { text: String::from("good morning") });
    let delivered = g.chat_log.iter().any(|e| {
        e.recipients == vec![0, 1, 2, 3, 4]
            && match &e.message {
                ChatMessage::Normal { text, .. } => text == "good morning",
                _ => false,
            }
    });
    assert!(delivered);
}
