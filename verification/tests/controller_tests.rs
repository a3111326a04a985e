//! The ability-controller registry: validation, override-merge and resets.

use mafia_server::ability_input::{
    AbilitySelection, AvailableAbilitySelection, ControllerID, ControllerParameters,
    ControllerParametersMap, SelectionError,
};
use mafia_server::game::mock_game;
use mafia_server::phase::PhaseType;
use mafia_server::role::Role;
use mafia_server::settings::{PhaseTimes, Settings};

fn registry_settings(roles: Vec<Role>) -> Settings {
    Settings {
        phase_times: PhaseTimes {
            morning: 10,
            discussion: 40,
            nomination: 30,
            testimony: 20,
            judgement: 20,
            evening: 10,
            night: 60,
            obituary: 10,
        },
        role_list: roles,
        excluded_roles: Vec::new(),
    }
}

fn boolean_controller(grayed: bool) -> ControllerParameters {
    ControllerParameters {
        available: AvailableAbilitySelection::Boolean,
        selection: AbilitySelection::Boolean { selection: false },
        grayed_out: grayed,
        reset_on_phase: None,
        allowed_players: vec![7],
    }
}

#[test]
fn controller_id_constructors_build_the_identities() {
    assert_eq!(
        ControllerID::role(3, Role::Reporter, 1),
        ControllerID::Role { player: 3, role: Role::Reporter, id: 1 }
    );
    assert_eq!(ControllerID::forfeit_vote(4), ControllerID::ForfeitVote { player: 4 });
    assert_eq!(ControllerID::pitchfork_vote(5), ControllerID::PitchforkVote { player: 5 });
    assert_eq!(ControllerID::syndicate_gun_item_shoot(), ControllerID::SyndicateGunItemShoot);
    assert_eq!(ControllerID::syndicate_gun_item_give(), ControllerID::SyndicateGunItemGive);
}

#[test]
fn selections_outside_the_declared_space_are_rejected_not_clamped() {
    let mut map = ControllerParametersMap::new();
    let id = ControllerID::forfeit_vote(0);
    map.insert_controller(id, boolean_controller(false));
    let wrong_kind = map.set_selection(
        id,
        AbilitySelection::OnePlayerOption { selection: Some(1) },
    );
    assert_eq!(wrong_kind, Err(SelectionError::OutsideAvailableSelection));
    assert_eq!(map.get_controller_current_selection_boolean(id), Some(false));
    let ok = map.set_selection(id, AbilitySelection::Boolean { selection: true });
    assert!(ok.is_ok());
    assert_eq!(map.get_controller_current_selection_boolean(id), Some(true));
}

#[test]
fn unknown_and_grayed_controllers_reject_selections() {
    let mut map = ControllerParametersMap::new();
    let missing = map.set_selection(
        ControllerID::forfeit_vote(9),
        AbilitySelection::Boolean { selection: true },
    );
    assert_eq!(missing, Err(SelectionError::UnknownController));
    let id = ControllerID::pitchfork_vote(1);
    map.insert_controller(id, boolean_controller(true));
    let grayed = map.set_selection(id, AbilitySelection::Boolean { selection: true });
    assert_eq!(grayed, Err(SelectionError::GrayedOut));
}

#[test]
fn one_player_option_space_lists_its_choices() {
    let mut map = ControllerParametersMap::new();
    let id = ControllerID::forfeit_vote(2);
    map.insert_controller(
        id,
        ControllerParameters {
            available: AvailableAbilitySelection::OnePlayerOption {
                available: vec![Some(1), Some(3), None],
            },
            selection: AbilitySelection::OnePlayerOption { selection: None },
            grayed_out: false,
            reset_on_phase: None,
            allowed_players: vec![2],
        },
    );
    assert!(map
        .set_selection(id, AbilitySelection::OnePlayerOption { selection: Some(3) })
        .is_ok());
    assert_eq!(
        map.set_selection(id, AbilitySelection::OnePlayerOption { selection: Some(2) }),
        Err(SelectionError::OutsideAvailableSelection)
    );
    assert_eq!(map.get_controller_current_selection_player_option(id), Some(Some(3)));
}

#[test]
fn override_merge_is_last_writer_wins() {
    let mut base = ControllerParametersMap::new();
    let id = ControllerID::forfeit_vote(0);
    base.insert_controller(id, boolean_controller(false));
    let mut later = ControllerParametersMap::new();
    later.insert_controller(id, boolean_controller(true));
    let keep = ControllerID::pitchfork_vote(0);
    let mut base2 = base;
    base2.insert_controller(keep, boolean_controller(false));
    let mut merged = base2.combine_overwrite_owned(later);
    // The later declaration replaces the earlier one entirely.
    let shoot = merged.set_selection(id, AbilitySelection::Boolean { selection: true });
    assert_eq!(shoot, Err(SelectionError::GrayedOut));
    // Identities only the base declared survive the merge.
    assert!(merged.contains_id(keep));
}

#[test]
fn update_controllers_declares_reporter_and_gun_slots() {
    let mut g = mock_game(
        registry_settings(vec![Role::Reporter, Role::Sheriff, Role::Mafioso]),
        3,
    )
    .unwrap();
    g.syndicate_gun_item.player_with_gun = Some(2);
    g.update_controllers(PhaseType::Morning);
    assert!(g.saved_controllers.contains_id(ControllerID::role(0, Role::Reporter, 0)));
    assert!(g.saved_controllers.contains_id(ControllerID::role(0, Role::Reporter, 1)));
    assert!(g.saved_controllers.contains_id(ControllerID::role(0, Role::Reporter, 2)));
    assert!(g.saved_controllers.contains_id(ControllerID::syndicate_gun_item_shoot()));
    assert!(g.saved_controllers.contains_id(ControllerID::syndicate_gun_item_give()));
    assert!(!g.saved_controllers.contains_id(ControllerID::role(1, Role::Reporter, 0)));
}

#[test]
fn update_controllers_carries_selections_until_their_reset_phase() {
    let mut g = mock_game(
        registry_settings(vec![Role::Reporter, Role::Sheriff, Role::Mafioso]),
        3,
    )
    .unwrap();
    g.update_controllers(PhaseType::Morning);
    let publish = ControllerID::role(0, Role::Reporter, 1);
    let pick = ControllerID::role(0, Role::Reporter, 0);
    assert!(g
        .saved_controllers
        .set_selection(publish, AbilitySelection::Boolean { selection: true })
        .is_ok());
    assert!(g
        .saved_controllers
        .set_selection(pick, AbilitySelection::OnePlayerOption { selection: Some(1) })
        .is_ok());
    // A phase the declarations do not reset on keeps both selections.
    g.update_controllers(PhaseType::Morning);
    assert_eq!(g.saved_controllers.get_controller_current_selection_boolean(publish), Some(true));
    assert_eq!(
        g.saved_controllers.get_controller_current_selection_player_option(pick),
        Some(Some(1))
    );
    // The interview pick is declared to clear at night start; the publish
    // switch persists.
    g.update_controllers(PhaseType::Night);
    assert_eq!(
        g.saved_controllers.get_controller_current_selection_player_option(pick),
        Some(None)
    );
    assert_eq!(g.saved_controllers.get_controller_current_selection_boolean(publish), Some(true));
}

#[test]
fn only_the_declared_owner_may_submit() {
    let mut g = mock_game(
        registry_settings(vec![Role::Reporter, Role::Sheriff, Role::Mafioso]),
        3,
    )
    .unwrap();
    g.update_controllers(PhaseType::Morning);
    let publish = ControllerID::role(0, Role::Reporter, 1);
    assert!(g.saved_controllers.allowed_contains(publish, 0));
    assert!(!g.saved_controllers.allowed_contains(publish, 1));
}
