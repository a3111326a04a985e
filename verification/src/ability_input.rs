//! Ability controllers: declared, validated selection slots for role
//! abilities.
//!
//! Every (participant, role, slot) ability is a controller: a declaration of
//! its available selection space together with the currently stored
//! selection. A submitted selection is rejected, never clamped, when it lies
//! outside the declared space or the controller is grayed out. Two controller
//! maps merge with override semantics: when both declare the same controller
//! identity, the later declaration wins entirely.

use vstd::prelude::*;

use crate::phase::PhaseType;
use crate::role::Role;

verus! {

/// Identity of one ability controller.
#[derive(Clone, Copy, PartialEq, Eq, Structural, Debug)]
pub enum ControllerID {
    /// Slot `id` of `role` as held by `player`.
    Role { player: u8, role: Role, id: u8 },
    ForfeitVote { player: u8 },
    PitchforkVote { player: u8 },
    SyndicateGunItemShoot,
    SyndicateGunItemGive,
}

impl ControllerID {
    /// Slot `id` of `role` as held by `player`.
    pub fn role(player: u8, role: Role, id: u8) -> (c: Self)
        ensures
            c == (ControllerID::Role { player, role, id }),
    {
        ControllerID::Role { player, role, id }
    }

    pub fn forfeit_vote(player: u8) -> (c: Self)
        ensures
            c == (ControllerID::ForfeitVote { player }),
    {
        ControllerID::ForfeitVote { player }
    }

    pub fn pitchfork_vote(player: u8) -> (c: Self)
        ensures
            c == (ControllerID::PitchforkVote { player }),
    {
        ControllerID::PitchforkVote { player }
    }

    pub fn syndicate_gun_item_shoot() -> (c: Self)
        ensures
            c == ControllerID::SyndicateGunItemShoot,
    {
        ControllerID::SyndicateGunItemShoot
    }

    pub fn syndicate_gun_item_give() -> (c: Self)
        ensures
            c == ControllerID::SyndicateGunItemGive,
    {
        ControllerID::SyndicateGunItemGive
    }
}

/// A stored selection for one controller.
#[derive(Debug)]
pub enum AbilitySelection {
    /// At most one participant.
    OnePlayerOption { selection: Option<u8> },
    /// An ordered list of participants.
    PlayerList { selection: Vec<u8> },
    Boolean { selection: bool },
    /// Free text.
    Text { selection: String },
}

/// The declared space a controller's selection must lie in.
#[derive(Debug)]
pub enum AvailableAbilitySelection {
    /// One choice out of an explicit list of optional participants.
    OnePlayerOption { available: Vec<Option<u8>> },
    /// Any list drawn from `available_players`, optionally without
    /// duplicates, optionally bounded in length.
    PlayerList {
        available_players: Vec<u8>,
        can_choose_duplicates: bool,
        max_players: Option<u8>,
    },
    Boolean,
    Text,
}

/// Whether `sel` lies within the declared space `avail`. Selections outside
/// the space are rejected, not clamped.
pub open spec fn spec_selection_valid(avail: AvailableAbilitySelection, sel: AbilitySelection) -> bool {
    match avail {
        AvailableAbilitySelection::OnePlayerOption { available } => {
            &&& sel matches AbilitySelection::OnePlayerOption { selection }
            &&& available@.contains(selection)
        },
        AvailableAbilitySelection::PlayerList { available_players, can_choose_duplicates, max_players } => {
            &&& sel matches AbilitySelection::PlayerList { selection }
            &&& forall|i: int| 0 <= i < selection@.len() ==> available_players@.contains(
                #[trigger] selection@[i],
            )
            &&& !can_choose_duplicates ==> selection@.no_duplicates()
            &&& max_players matches Some(m) ==> selection@.len() <= m
        },
        AvailableAbilitySelection::Boolean => sel is Boolean,
        AvailableAbilitySelection::Text => sel is Text,
    }
}

/// Whether the list `v` holds `x`.
fn vec_contains_opt_u8(v: &Vec<Option<u8>>, x: Option<u8>) -> (r: bool)
    ensures
        r == v@.contains(x),
{
    let mut i: usize = 0;
    while i < v.len()
        invariant
            i <= v@.len(),
            forall|j: int| 0 <= j < i ==> v@[j] != x,
        decreases v@.len() - i,
    {
        if v[i] == x {
            return true;
        }
        i = i + 1;
    }
    false
}

/// Whether the list `v` holds `x`.
pub fn vec_contains_u8(v: &Vec<u8>, x: u8) -> (r: bool)
    ensures
        r == v@.contains(x),
{
    let mut i: usize = 0;
    while i < v.len()
        invariant
            i <= v@.len(),
            forall|j: int| 0 <= j < i ==> v@[j] != x,
        decreases v@.len() - i,
    {
        if v[i] == x {
            return true;
        }
        i = i + 1;
    }
    false
}

/// Whether the list `v` holds no participant twice.
fn vec_no_duplicates_u8(v: &Vec<u8>) -> (r: bool)
    ensures
        r == v@.no_duplicates(),
{
    let mut i: usize = 0;
    while i < v.len()
        invariant
            i <= v@.len(),
            forall|p: int, q: int| 0 <= p < q < i ==> v@[p] != v@[q],
            forall|p: int, q: int| 0 <= p < i && i <= q < v@.len() && p < q ==> v@[p] != v@[q],
    decreases v@.len() - i,
    {
        let mut j: usize = i + 1;
        while j < v.len()
            invariant
                i < j <= v@.len(),
                i < v@.len(),
                forall|q: int| i < q < j ==> v@[i as int] != v@[q],
            decreases v@.len() - j,
        {
            if v[i] == v[j] {
                return false;
            }
            j = j + 1;
        }
        i = i + 1;
    }
    true
}

/// Appending one element extends a list's contents by exactly that element.
pub proof fn lemma_contains_push<T>(s: Seq<T>, e: T, x: T)
    ensures
        s.push(e).contains(x) <==> (s.contains(x) || x == e),
{
    if s.push(e).contains(x) {
        let w = choose|i: int| 0 <= i < s.push(e).len() && s.push(e)[i] == x;
        if w < s.len() {
            assert(s[w] == x);
        }
    }
    if s.contains(x) {
        let w = choose|i: int| 0 <= i < s.len() && s[i] == x;
        assert(s.push(e)[w] == x);
    }
    if x == e {
        assert(s.push(e)[s.len() as int] == x);
    }
}

/// Element-for-element copy of a participant list.
pub fn copy_u8s(v: &Vec<u8>) -> (res: Vec<u8>)
    ensures
        res@ == v@,
{
    let mut res: Vec<u8> = Vec::new();
    let mut i: usize = 0;
    while i < v.len()
        invariant
            i <= v@.len(),
            res@ == v@.subrange(0, i as int),
        decreases v@.len() - i,
    {
        res.push(v[i]);
        proof {
            assert(res@ =~= v@.subrange(0, i + 1 as int));
        }
        i = i + 1;
    }
    proof {
        assert(v@.subrange(0, v@.len() as int) =~= v@);
    }
    res
}

/// Whether `sel` lies within the declared space `avail`.
pub fn selection_valid(avail: &AvailableAbilitySelection, sel: &AbilitySelection) -> (r: bool)
    ensures
        r == spec_selection_valid(*avail, *sel),
{
    match avail {
        AvailableAbilitySelection::OnePlayerOption { available } => {
            match sel {
                AbilitySelection::OnePlayerOption { selection } => {
                    vec_contains_opt_u8(available, *selection)
                },
                _ => false,
            }
        },
        AvailableAbilitySelection::PlayerList { available_players, can_choose_duplicates, max_players } => {
            match sel {
                AbilitySelection::PlayerList { selection } => {
                    let mut i: usize = 0;
                    let mut all_available = true;
                    while i < selection.len()
                        invariant
                            i <= selection@.len(),
                            all_available == forall|j: int|
                                0 <= j < i ==> available_players@.contains(#[trigger] selection@[j]),
                        decreases selection@.len() - i,
                    {
                        if !vec_contains_u8(available_players, selection[i]) {
                            all_available = false;
                        }
                        i = i + 1;
                    }
                    let dup_ok = *can_choose_duplicates || vec_no_duplicates_u8(selection);
                    let max_ok = match max_players {
                        Some(m) => selection.len() <= *m as usize,
                        None => true,
                    };
                    all_available && dup_ok && max_ok
                },
                _ => false,
            }
        },
        AvailableAbilitySelection::Boolean => matches!(sel, AbilitySelection::Boolean { .. }),
        AvailableAbilitySelection::Text => matches!(sel, AbilitySelection::Text { .. }),
    }
}

/// One controller declaration: its space, its stored selection and its
/// bookkeeping flags.
#[derive(Debug)]
pub struct ControllerParameters {
    pub available: AvailableAbilitySelection,
    pub selection: AbilitySelection,
    /// A grayed-out controller rejects every submitted selection.
    pub grayed_out: bool,
    /// Declared reset policy: clear the selection back to `default_selection`
    /// when this phase starts, if set.
    pub reset_on_phase: Option<PhaseType>,
    /// The participants allowed to submit selections for this controller.
    pub allowed_players: Vec<u8>,
}

/// A mapping from controller identity to its declaration.
#[derive(Debug)]
pub struct ControllerParametersMap {
    pub entries: Vec<(ControllerID, ControllerParameters)>,
}

/// No controller identity occurs twice.
pub open spec fn spec_keys_unique(s: Seq<(ControllerID, ControllerParameters)>) -> bool {
    forall|i: int, j: int| 0 <= i < j < s.len() ==> (#[trigger] s[i]).0 != (#[trigger] s[j]).0
}

/// Whether some entry declares the controller `id`.
pub open spec fn spec_has_key(s: Seq<(ControllerID, ControllerParameters)>, id: ControllerID) -> bool {
    exists|i: int| 0 <= i < s.len() && (#[trigger] s[i]).0 == id
}

/// The index of the entry declaring `id`, when one exists.
pub open spec fn spec_key_index(s: Seq<(ControllerID, ControllerParameters)>, id: ControllerID) -> int {
    choose|i: int| 0 <= i < s.len() && (#[trigger] s[i]).0 == id
}

/// The declaration stored for `id`, if any.
pub open spec fn spec_lookup(
    s: Seq<(ControllerID, ControllerParameters)>,
    id: ControllerID,
) -> Option<ControllerParameters> {
    if spec_has_key(s, id) {
        Some(s[spec_key_index(s, id)].1)
    } else {
        None
    }
}

/// Any contiguous part of an entry list with unique keys has unique keys.
pub proof fn lemma_subrange_keys_unique(
    s: Seq<(ControllerID, ControllerParameters)>,
    a: int,
    b: int,
)
    requires
        spec_keys_unique(s),
        0 <= a <= b <= s.len(),
    ensures
        spec_keys_unique(s.subrange(a, b)),
{
    let sub = s.subrange(a, b);
    assert forall|i: int, j: int| 0 <= i < j < sub.len() implies (#[trigger] sub[i]).0 != (
    #[trigger] sub[j]).0 by {
        assert(sub[i] == s[a + i]);
        assert(sub[j] == s[a + j]);
    }
}

/// With unique keys, any entry holding `id` is the entry `spec_key_index`
/// points at.
pub proof fn lemma_key_index_unique(
    s: Seq<(ControllerID, ControllerParameters)>,
    id: ControllerID,
    i: int,
)
    requires
        spec_keys_unique(s),
        0 <= i < s.len(),
        s[i].0 == id,
    ensures
        spec_has_key(s, id),
        spec_key_index(s, id) == i,
        spec_lookup(s, id) == Some(s[i].1),
{
    assert(spec_has_key(s, id));
    let w = spec_key_index(s, id);
    if w != i {
        if w < i {
            assert(s[w].0 != s[i].0);
        } else {
            assert(s[i].0 != s[w].0);
        }
    }
}

impl ControllerParametersMap {
    /// No controller identity occurs twice.
    pub open spec fn wf(&self) -> bool {
        spec_keys_unique(self.entries@)
    }

    /// The declaration stored for `id`, if any.
    pub open spec fn spec_get(&self, id: ControllerID) -> Option<ControllerParameters> {
        spec_lookup(self.entries@, id)
    }

    /// An empty mapping.
    pub fn new() -> (m: Self)
        ensures
            m.wf(),
            m.entries@ == Seq::<(ControllerID, ControllerParameters)>::empty(),
            forall|x: ControllerID| m.spec_get(x) is None,
    {
        let m = ControllerParametersMap { entries: Vec::new() };
        proof {
            assert forall|x: ControllerID| m.spec_get(x) is None by {
                assert(!spec_has_key(m.entries@, x));
            }
        }
        m
    }

    /// The position of the entry declaring `id`, if any.
    fn find_index(&self, id: ControllerID) -> (r: Option<usize>)
        requires
            self.wf(),
        ensures
            match r {
                Some(i) => {
                    &&& i < self.entries@.len()
                    &&& self.entries@[i as int].0 == id
                    &&& spec_has_key(self.entries@, id)
                    &&& spec_key_index(self.entries@, id) == i
                },
                None => !spec_has_key(self.entries@, id),
            },
    {
        let mut i: usize = 0;
        while i < self.entries.len()
            invariant
                self.wf(),
                i <= self.entries@.len(),
                forall|j: int| 0 <= j < i ==> (#[trigger] self.entries@[j]).0 != id,
            decreases self.entries@.len() - i,
        {
            if self.entries[i].0 == id {
                proof {
                    lemma_key_index_unique(self.entries@, id, i as int);
                }
                return Some(i);
            }
            i = i + 1;
        }
        proof {
            if spec_has_key(self.entries@, id) {
                let w = spec_key_index(self.entries@, id);
                assert(self.entries@[w].0 != id);
            }
        }
        None
    }

    /// Whether some entry declares the controller `id`.
    pub fn contains_id(&self, id: ControllerID) -> (r: bool)
        requires
            self.wf(),
        ensures
            r == spec_has_key(self.entries@, id),
    {
        self.find_index(id).is_some()
    }

    /// Stores `params` for `id`. A declaration already present for the same
    /// identity is replaced entirely: the later declaration wins, with no
    /// field-level merging.
    pub fn insert_controller(&mut self, id: ControllerID, params: ControllerParameters)
        requires
            old(self).wf(),
        ensures
            final(self).wf(),
            final(self).spec_get(id) == Some(params),
            forall|x: ControllerID| x != id ==> final(self).spec_get(x) == old(self).spec_get(x),
    {
        let found = self.find_index(id);
        match found {
            Some(i) => {
                let ghost before = self.entries@;
                self.entries.set(i, (id, params));
                proof {
                    let s = self.entries@;
                    assert(spec_keys_unique(s));
                    lemma_key_index_unique(s, id, i as int);
                    assert forall|x: ControllerID| x != id implies spec_lookup(s, x) == spec_lookup(
                        before,
                        x,
                    ) by {
                        if spec_has_key(before, x) {
                            let w = spec_key_index(before, x);
                            assert(w != i);
                            assert(s[w].0 == x);
                            lemma_key_index_unique(s, x, w);
                            lemma_key_index_unique(before, x, w);
                        } else {
                            if spec_has_key(s, x) {
                                let w = spec_key_index(s, x);
                                assert(before[w].0 == x);
                            }
                        }
                    }
                }
            },
            None => {
                let ghost before = self.entries@;
                self.entries.push((id, params));
                proof {
                    let s = self.entries@;
                    let n = before.len() as int;
                    assert forall|i: int, j: int| 0 <= i < j < s.len() implies (#[trigger] s[i]).0
                        != (#[trigger] s[j]).0 by {
                        if j < n {
                            assert(before[i].0 != before[j].0);
                        } else {
                            assert(s[j].0 == id);
                            assert(s[i].0 == before[i].0);
                        }
                    }
                    lemma_key_index_unique(s, id, n);
                    assert forall|x: ControllerID| x != id implies spec_lookup(s, x) == spec_lookup(
                        before,
                        x,
                    ) by {
                        if spec_has_key(before, x) {
                            let w = spec_key_index(before, x);
                            assert(s[w].0 == x);
                            lemma_key_index_unique(s, x, w);
                            lemma_key_index_unique(before, x, w);
                        } else {
                            if spec_has_key(s, x) {
                                let w = spec_key_index(s, x);
                                assert(w < n ==> before[w].0 == x);
                                assert(w == n ==> s[w].0 == id);
                            }
                        }
                    }
                }
            },
        }
    }

    /// Override-merge: every declaration of `other` is laid over `self`.
    /// Where both maps declare the same controller identity, `other`'s
    /// declaration wins entirely — there is no field-level merge.
    pub fn combine_overwrite_owned(self, other: Self) -> (merged: Self)
        requires
            self.wf(),
            other.wf(),
        ensures
            merged.wf(),
            forall|x: ControllerID|
                #[trigger] merged.spec_get(x) == if spec_has_key(other.entries@, x) {
                    spec_lookup(other.entries@, x)
                } else {
                    self.spec_get(x)
                },
    {
        let ghost base = self.entries@;
        let ghost incoming = other.entries@;
        let mut merged = self;
        let mut rest = other.entries;
        let mut k: usize = 0;
        let n = rest.len();
        proof {
            assert(rest@ =~= incoming.subrange(0, n as int));
        }
        while rest.len() > 0
            invariant
                merged.wf(),
                spec_keys_unique(incoming),
                n == incoming.len(),
                k + rest@.len() == n,
                rest@ == incoming.subrange(k as int, n as int),
                forall|x: ControllerID|
                    #[trigger] merged.spec_get(x) == if spec_has_key(
                        incoming.subrange(0, k as int),
                        x,
                    ) {
                        spec_lookup(incoming.subrange(0, k as int), x)
                    } else {
                        spec_lookup(base, x)
                    },
            decreases rest@.len(),
        {
            let ghost rest_pre = rest@;
            let e = rest.remove(0);
            let ghost prefix = incoming.subrange(0, k as int);
            proof {
                assert(e == rest_pre[0]);
                assert(incoming.subrange(k as int, n as int)[0] == incoming[k as int]);
            }
            let (id, params) = e;
            proof {
                assert(incoming[k as int].0 == id && incoming[k as int].1 == params);
            }
            merged.insert_controller(id, params);
            proof {
                let prefix2 = incoming.subrange(0, k + 1 as int);
                assert(prefix.len() == k as int);
                assert(prefix2.len() == k + 1 as int);
                assert forall|i: int| 0 <= i < k implies prefix[i] == incoming[i] by {}
                assert forall|i: int| 0 <= i <= k implies prefix2[i] == incoming[i] by {}
                lemma_subrange_keys_unique(incoming, 0, k as int);
                lemma_subrange_keys_unique(incoming, 0, k + 1 as int);
                assert(prefix2 =~= prefix.push(incoming[k as int]));
                assert forall|x: ControllerID|
                    #[trigger] merged.spec_get(x) == if spec_has_key(prefix2, x) {
                        spec_lookup(prefix2, x)
                    } else {
                        spec_lookup(base, x)
                    } by {
                    if x == id {
                        lemma_key_index_unique(prefix2, x, k as int);
                    } else {
                        if spec_has_key(prefix2, x) {
                            let w = spec_key_index(prefix2, x);
                            assert(prefix2[w].0 == x);
                            assert(prefix2[k as int].0 == id);
                            assert(w != k);
                            assert(prefix[w].0 == x);
                            lemma_key_index_unique(prefix2, x, w);
                            lemma_key_index_unique(prefix, x, w);
                        } else {
                            if spec_has_key(prefix, x) {
                                let w = spec_key_index(prefix, x);
                                assert(prefix2[w].0 == x);
                            }
                        }
                    }
                }
                assert(rest@ =~= incoming.subrange(k + 1 as int, n as int));
            }
            k = k + 1;
        }
        proof {
            assert(incoming.subrange(0, n as int) =~= incoming);
        }
        merged
    }

    /// Submits a selection for one controller. The submission is rejected,
    /// with no state change, when the controller is unknown, grayed out, or
    /// the value lies outside the controller's declared available space.
    pub fn set_selection(&mut self, id: ControllerID, selection: AbilitySelection) -> (r: Result<
        (),
        SelectionError,
    >)
        requires
            old(self).wf(),
        ensures
            final(self).wf(),
            r is Ok <==> (old(self).spec_get(id) matches Some(p) && !p.grayed_out
                && spec_selection_valid(p.available, selection)),
            r is Ok ==> {
                &&& final(self).spec_get(id) == Some(
                    ControllerParameters {
                        selection,
                        ..old(self).spec_get(id).unwrap()
                    },
                )
                &&& forall|x: ControllerID| x != id ==> final(self).spec_get(x) == old(
                    self,
                ).spec_get(x)
            },
            r is Err ==> *final(self) == *old(self),
            r matches Err(e) ==> (e == SelectionError::UnknownController <==> old(self).spec_get(id) is None),
    {
        let found = self.find_index(id);
        let i = match found {
            Some(i) => i,
            None => {
                return Err(SelectionError::UnknownController);
            },
        };
        if self.entries[i].1.grayed_out {
            return Err(SelectionError::GrayedOut);
        }
        if !selection_valid(&self.entries[i].1.available, &selection) {
            return Err(SelectionError::OutsideAvailableSelection);
        }
        let ghost before = self.entries@;
        let (eid, old_params) = self.entries.remove(i);
        let new_params = ControllerParameters { selection, ..old_params };
        self.entries.insert(i, (eid, new_params));
        proof {
            assert(self.entries@ =~= before.update(
                i as int,
                (id, ControllerParameters { selection, ..before[i as int].1 }),
            ));
            let s = self.entries@;
            assert(spec_keys_unique(s));
            lemma_key_index_unique(s, id, i as int);
            assert forall|x: ControllerID| x != id implies spec_lookup(s, x) == spec_lookup(
                before,
                x,
            ) by {
                if spec_has_key(before, x) {
                    let w = spec_key_index(before, x);
                    assert(s[w].0 == x);
                    lemma_key_index_unique(s, x, w);
                    lemma_key_index_unique(before, x, w);
                } else {
                    if spec_has_key(s, x) {
                        let w = spec_key_index(s, x);
                        assert(before[w].0 == x);
                    }
                }
            }
        }
        Ok(())
    }

    /// The stored boolean selection of `id`, when `id` is declared and holds
    /// a boolean.
    pub fn get_controller_current_selection_boolean(&self, id: ControllerID) -> (r: Option<bool>)
        requires
            self.wf(),
        ensures
            r == spec_selection_boolean(self.entries@, id),
    {
        match self.find_index(id) {
            Some(i) => {
                match &self.entries[i].1.selection {
                    AbilitySelection::Boolean { selection } => Some(*selection),
                    _ => None,
                }
            },
            None => None,
        }
    }

    /// The stored text selection of `id`, when `id` is declared and holds
    /// text.
    pub fn get_controller_current_selection_string(&self, id: ControllerID) -> (r: Option<String>)
        requires
            self.wf(),
        ensures
            r == spec_selection_text(self.entries@, id),
    {
        match self.find_index(id) {
            Some(i) => {
                match &self.entries[i].1.selection {
                    AbilitySelection::Text { selection } => Some(selection.clone()),
                    _ => None,
                }
            },
            None => None,
        }
    }

    /// The stored one-player selection of `id`, when `id` is declared and
    /// holds one.
    pub fn get_controller_current_selection_player_option(&self, id: ControllerID) -> (r: Option<
        Option<u8>,
    >)
        requires
            self.wf(),
        ensures
            r == spec_selection_player_option(self.entries@, id),
    {
        match self.find_index(id) {
            Some(i) => {
                match &self.entries[i].1.selection {
                    AbilitySelection::OnePlayerOption { selection } => Some(*selection),
                    _ => None,
                }
            },
            None => None,
        }
    }

    /// The stored player-list selection of `id`, when `id` is declared and
    /// holds one.
    pub fn get_controller_current_selection_player_list(&self, id: ControllerID) -> (r: Option<
        Vec<u8>,
    >)
        requires
            self.wf(),
        ensures
            match r {
                Some(v) => spec_selection_player_list(self.entries@, id) matches Some(l) && v@ == l,
                None => spec_selection_player_list(self.entries@, id) is None,
            },
    {
        match self.find_index(id) {
            Some(i) => {
                match &self.entries[i].1.selection {
                    AbilitySelection::PlayerList { selection } => Some(copy_u8s(selection)),
                    _ => None,
                }
            },
            None => None,
        }
    }
}

/// The boolean selection stored for `id`, if it is declared and boolean.
pub open spec fn spec_selection_boolean(
    s: Seq<(ControllerID, ControllerParameters)>,
    id: ControllerID,
) -> Option<bool> {
    match spec_lookup(s, id) {
        Some(p) => match p.selection {
            AbilitySelection::Boolean { selection } => Some(selection),
            _ => None,
        },
        None => None,
    }
}

/// The view of the text selection stored for `id`, if declared and text.
pub open spec fn spec_selection_text(
    s: Seq<(ControllerID, ControllerParameters)>,
    id: ControllerID,
) -> Option<String> {
    match spec_lookup(s, id) {
        Some(p) => match p.selection {
            AbilitySelection::Text { selection } => Some(selection),
            _ => None,
        },
        None => None,
    }
}

/// The one-player selection stored for `id`, if declared and of that kind.
pub open spec fn spec_selection_player_option(
    s: Seq<(ControllerID, ControllerParameters)>,
    id: ControllerID,
) -> Option<Option<u8>> {
    match spec_lookup(s, id) {
        Some(p) => match p.selection {
            AbilitySelection::OnePlayerOption { selection } => Some(selection),
            _ => None,
        },
        None => None,
    }
}

/// The player-list selection stored for `id`, if declared and of that kind.
pub open spec fn spec_selection_player_list(
    s: Seq<(ControllerID, ControllerParameters)>,
    id: ControllerID,
) -> Option<Seq<u8>> {
    match spec_lookup(s, id) {
        Some(p) => match p.selection {
            AbilitySelection::PlayerList { selection } => Some(selection@),
            _ => None,
        },
        None => None,
    }
}

/// Whether two selections carry the same value; list selections are
/// compared by their contents.
pub open spec fn spec_selection_like(a: AbilitySelection, b: AbilitySelection) -> bool {
    match (a, b) {
        (
            AbilitySelection::PlayerList { selection: x },
            AbilitySelection::PlayerList { selection: y },
        ) => x@ == y@,
        _ => a == b,
    }
}

/// Selections with the same contents are valid in exactly the same spaces.
pub proof fn lemma_like_selection_same_validity(
    avail: AvailableAbilitySelection,
    a: AbilitySelection,
    b: AbilitySelection,
)
    requires
        spec_selection_like(a, b),
    ensures
        spec_selection_valid(avail, a) == spec_selection_valid(avail, b),
{
}

/// A value-for-value copy of a stored selection.
pub fn clone_selection(sel: &AbilitySelection) -> (r: AbilitySelection)
    ensures
        spec_selection_like(r, *sel),
{
    match sel {
        AbilitySelection::OnePlayerOption { selection } => AbilitySelection::OnePlayerOption {
            selection: *selection,
        },
        AbilitySelection::PlayerList { selection } => AbilitySelection::PlayerList {
            selection: copy_u8s(selection),
        },
        AbilitySelection::Boolean { selection } => AbilitySelection::Boolean {
            selection: *selection,
        },
        AbilitySelection::Text { selection } => AbilitySelection::Text {
            selection: selection.clone(),
        },
    }
}

impl ControllerParametersMap {
    /// A copy of the selection stored for `id`, when `id` is declared.
    pub fn get_selection_clone(&self, id: ControllerID) -> (r: Option<AbilitySelection>)
        requires
            self.wf(),
        ensures
            match r {
                Some(s) => self.spec_get(id) matches Some(p) && spec_selection_like(
                    s,
                    p.selection,
                ),
                None => self.spec_get(id) is None,
            },
    {
        match self.find_index(id) {
            Some(i) => Some(clone_selection(&self.entries[i].1.selection)),
            None => None,
        }
    }
}

impl ControllerParametersMap {
    /// Whether `player` is allowed to submit selections for `id`.
    pub fn allowed_contains(&self, id: ControllerID, player: u8) -> (r: bool)
        requires
            self.wf(),
        ensures
            r == (self.spec_get(id) matches Some(p) && p.allowed_players@.contains(player)),
    {
        match self.find_index(id) {
            Some(i) => vec_contains_u8(&self.entries[i].1.allowed_players, player),
            None => false,
        }
    }
}

/// Why a submitted selection was rejected. Rejection never mutates state.
#[derive(Clone, Copy, PartialEq, Eq, Structural, Debug)]
pub enum SelectionError {
    /// The referenced controller is not declared.
    UnknownController,
    /// The controller is currently grayed out.
    GrayedOut,
    /// The value lies outside the controller's declared available space.
    OutsideAvailableSelection,
}

/// One submitted ability input: a controller identity and the selection to
/// store for it.
#[derive(Debug)]
pub struct AbilityInput {
    pub id: ControllerID,
    pub selection: AbilitySelection,
}

impl AbilityInput {
    /// The one-player selection carried by this input, when the input is for
    /// controller `id` and carries one.
    pub fn get_player_option_selection_if_id(&self, id: ControllerID) -> (r: Option<Option<u8>>)
        ensures
            match r {
                Some(sel) => self.id == id && (self.selection matches
                    AbilitySelection::OnePlayerOption { selection } && sel == selection),
                None => self.id != id || !(self.selection is OnePlayerOption),
            },
    {
        if self.id == id {
            match &self.selection {
                AbilitySelection::OnePlayerOption { selection } => Some(*selection),
                _ => None,
            }
        } else {
            None
        }
    }
}

} // verus!
