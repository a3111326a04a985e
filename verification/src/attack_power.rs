//! Ranked attack and defense strength and the kill adjudication rule.

use vstd::prelude::*;

verus! {

/// Strength of an attack made during the night, from weakest to strongest.
#[derive(Clone, Copy, PartialEq, Eq, Structural, Debug)]
pub enum AttackPower {
    NoAttack,
    Basic,
    Powerful,
    Unstoppable,
}

/// Strength of a participant's defense at the moment an attack resolves,
/// from weakest to strongest.
#[derive(Clone, Copy, PartialEq, Eq, Structural, Debug)]
pub enum DefensePower {
    NoDefense,
    Basic,
    Powerful,
    Invincible,
}

/// Numeric rank of an attack power; higher is stronger.
pub open spec fn attack_rank(a: AttackPower) -> int {
    match a {
        AttackPower::NoAttack => 0,
        AttackPower::Basic => 1,
        AttackPower::Powerful => 2,
        AttackPower::Unstoppable => 3,
    }
}

/// Numeric rank of a defense power; higher is stronger.
pub open spec fn defense_rank(d: DefensePower) -> int {
    match d {
        DefensePower::NoDefense => 0,
        DefensePower::Basic => 1,
        DefensePower::Powerful => 2,
        DefensePower::Invincible => 3,
    }
}

/// An attack succeeds exactly when its rank is strictly greater than the
/// defense's rank; an equal or lower rank never succeeds.
pub open spec fn spec_attack_succeeds(a: AttackPower, d: DefensePower) -> bool {
    attack_rank(a) > defense_rank(d)
}

impl AttackPower {
    /// Numeric rank of this attack power.
    pub fn rank(&self) -> (r: u8)
        ensures
            r as int == attack_rank(*self),
    {
        match self {
            AttackPower::NoAttack => 0,
            AttackPower::Basic => 1,
            AttackPower::Powerful => 2,
            AttackPower::Unstoppable => 3,
        }
    }

    /// Kill adjudication: whether an attack of this power kills a target whose
    /// defense is `d` at the moment of resolution.
    pub fn can_pierce(&self, d: DefensePower) -> (r: bool)
        ensures
            r == spec_attack_succeeds(*self, d),
    {
        self.rank() > d.rank()
    }
}

impl DefensePower {
    /// Numeric rank of this defense power.
    pub fn rank(&self) -> (r: u8)
        ensures
            r as int == defense_rank(*self),
    {
        match self {
            DefensePower::NoDefense => 0,
            DefensePower::Basic => 1,
            DefensePower::Powerful => 2,
            DefensePower::Invincible => 3,
        }
    }

    /// The stronger of two defense powers; protection effects never lower an
    /// already stronger defense.
    pub fn strongest(self, other: DefensePower) -> (r: DefensePower)
        ensures
            defense_rank(r) == if defense_rank(self) >= defense_rank(other) {
                defense_rank(self)
            } else {
                defense_rank(other)
            },
            r == self || r == other,
    {
        if self.rank() >= other.rank() {
            self
        } else {
            other
        }
    }
}

/// Law: for every attack/defense pair, an attack of rank `R` against a defense
/// of rank `D` succeeds if and only if `R > D`; an equal or lower rank never
/// succeeds, and no attack pierces an invincible defense.
pub proof fn lemma_attack_adjudication(a: AttackPower, d: DefensePower)
    ensures
        spec_attack_succeeds(a, d) <==> attack_rank(a) > defense_rank(d),
        attack_rank(a) <= defense_rank(d) ==> !spec_attack_succeeds(a, d),
        d == DefensePower::Invincible ==> !spec_attack_succeeds(a, d),
{
}

} // verus!
