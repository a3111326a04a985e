//! The kill adjudication rule on concrete rank pairs.

use mafia_server::attack_power::{AttackPower, DefensePower};

#[test]
fn basic_attack_fails_against_basic_defense() {
    assert!(!AttackPower::Basic.can_pierce(DefensePower::Basic));
}

#[test]
fn powerful_attack_pierces_basic_defense() {
    assert!(AttackPower::Powerful.can_pierce(DefensePower::Basic));
}

#[test]
fn no_attack_pierces_invincible_defense() {
    assert!(!AttackPower::Basic.can_pierce(DefensePower::Invincible));
    assert!(!AttackPower::Powerful.can_pierce(DefensePower::Invincible));
    assert!(!AttackPower::Unstoppable.can_pierce(DefensePower::Invincible));
}

#[test]
fn equal_ranks_never_pierce() {
    assert!(!AttackPower::NoAttack.can_pierce(DefensePower::NoDefense));
    assert!(!AttackPower::Basic.can_pierce(DefensePower::Basic));
    assert!(!AttackPower::Powerful.can_pierce(DefensePower::Powerful));
    assert!(!AttackPower::Unstoppable.can_pierce(DefensePower::Invincible));
}

#[test]
fn basic_attack_pierces_no_defense() {
    assert!(AttackPower::Basic.can_pierce(DefensePower::NoDefense));
}

#[test]
fn unstoppable_attack_pierces_powerful_defense() {
    assert!(AttackPower::Unstoppable.can_pierce(DefensePower::Powerful));
}

#[test]
fn strongest_defense_never_lowers() {
    let d = DefensePower::Invincible.strongest(DefensePower::Basic);
    assert!(matches!(d, DefensePower::Invincible));
    let d2 = DefensePower::NoDefense.strongest(DefensePower::Powerful);
    assert!(matches!(d2, DefensePower::Powerful));
}
