//! The battle state of a Pokemon Champions single battle and what each player may observe.
use vstd::prelude::*;

verus! {

#[derive(Clone, Copy, Debug, PartialEq, Eq)]
pub enum StateError {
    InvalidSelectionCount,
    InvalidActiveSlot,
    InvalidRevealedSelection,
    InvalidHp,
}

/// The battle state of one Pokemon.
#[derive(Clone, Copy, Debug, PartialEq, Eq)]
pub struct PokemonState {
    hp_curr: u32,
    hp_max: u32,
    /// Availability mask for the Pokemon's four move slots.
    pub move_availability: [bool; 4],
}

impl PokemonState {
    pub closed spec fn spec_hp_curr(self) -> u32 {
        self.hp_curr
    }

    pub closed spec fn spec_hp_max(self) -> u32 {
        self.hp_max
    }

    /// The move availability mask, the value of the field `move_availability`; verified code
    /// outside this module reads it through `available_moves`.
    pub closed spec fn spec_moves(self) -> [bool; 4] {
        self.move_availability
    }

    /// Current HP never exceeds a positive maximum.
    pub open spec fn wf(self) -> bool {
        0 < self.spec_hp_max() && self.spec_hp_curr() <= self.spec_hp_max()
    }

    pub fn new(hp_curr: u32, hp_max: u32, move_availability: [bool; 4]) -> (r: Result<Self, StateError>)
        ensures
            (hp_max == 0 || hp_curr > hp_max) <==> r == Err::<Self, StateError>(StateError::InvalidHp),
            (hp_max == 0 || hp_curr > hp_max) <==> r is Err,
            r matches Ok(p) ==> p.spec_hp_curr() == hp_curr && p.spec_hp_max() == hp_max
                && p.spec_moves() == move_availability && p.wf(),
    {
        if hp_max == 0 || hp_curr > hp_max {
            return Err(StateError::InvalidHp);
        }
        Ok(PokemonState { hp_curr, hp_max, move_availability })
    }

    pub fn hp_curr(&self) -> (r: u32)
        ensures
            r == self.spec_hp_curr(),
    {
        self.hp_curr
    }

    /// The availability mask of the four move slots.
    pub fn available_moves(&self) -> (r: [bool; 4])
        ensures
            r == self.spec_moves(),
    {
        self.move_availability
    }

    pub fn hp_max(&self) -> (r: u32)
        ensures
            r == self.spec_hp_max(),
    {
        self.hp_max
    }

    /// Same maximum HP and move availability, with current HP `hp`.
    pub closed spec fn with_hp(self, hp: u32) -> PokemonState {
        PokemonState { hp_curr: hp, ..self }
    }

    pub proof fn lemma_with_hp(self, hp: u32)
        ensures
            self.with_hp(hp).spec_hp_curr() == hp,
            self.with_hp(hp).spec_hp_max() == self.spec_hp_max(),
            self.with_hp(hp).spec_moves() == self.spec_moves(),
    {
    }

    fn take_damage(self, damage: u32) -> (r: PokemonState)
        ensures
            r == self.with_hp(hp_after_damage(self.spec_hp_curr(), damage)),
    {
        let hp = if damage >= self.hp_curr {
            0
        } else {
            self.hp_curr - damage
        };
        PokemonState { hp_curr: hp, ..self }
    }
}

/// HP after taking damage: it drops by the damage, but not below zero.
pub open spec fn hp_after_damage(hp: u32, damage: u32) -> u32 {
    if damage >= hp {
        0
    } else {
        (hp - damage) as u32
    }
}

/// How many of the six roster slots are selected.
pub open spec fn selected_count(selected: [bool; 6]) -> int {
    (if selected[0] { 1int } else { 0 }) + (if selected[1] { 1int } else { 0 }) + (if selected[2] {
        1int
    } else {
        0
    }) + (if selected[3] { 1int } else { 0 }) + (if selected[4] { 1int } else { 0 }) + (
    if selected[5] {
        1int
    } else {
        0
    })
}

/// One Trainer's six-Pokemon roster and completed three-Pokemon selection.
#[derive(Clone, Copy, Debug, PartialEq, Eq)]
pub struct TeamState {
    roster: [PokemonState; 6],
    selected: [bool; 6],
    slot_active: Option<usize>,
}

impl TeamState {
    pub closed spec fn spec_roster(self) -> [PokemonState; 6] {
        self.roster
    }

    pub closed spec fn spec_selected(self) -> [bool; 6] {
        self.selected
    }

    pub closed spec fn spec_slot_active(self) -> Option<usize> {
        self.slot_active
    }

    /// The HP of the Pokemon in a roster slot.
    pub open spec fn hp_of(self, slot: int) -> u32 {
        self.spec_roster()[slot].spec_hp_curr()
    }

    /// A slot may be the active one when it is selected and its Pokemon has not fainted.
    pub open spec fn can_be_active(self, slot: int) -> bool {
        0 <= slot < 6 && self.spec_selected()[slot] && self.hp_of(slot) > 0
    }

    /// Exactly three slots are selected, and the active slot, if any, may be active.
    #[verifier::type_invariant]
    pub open spec fn wf(self) -> bool {
        &&& selected_count(self.spec_selected()) == 3
        &&& (self.spec_slot_active() matches Some(a) ==> self.can_be_active(a as int))
    }

    /// Whether some selected Pokemon can still battle.
    pub open spec fn any_available(self) -> bool {
        exists|i: int| #[trigger] self.can_be_active(i)
    }

    /// Whether a candidate team passes the checks of `TeamState::new`, as its result.
    pub open spec fn check(
        roster: [PokemonState; 6],
        selected: [bool; 6],
        slot_active: Option<usize>,
    ) -> Result<(), StateError> {
        if selected_count(selected) != 3 {
            Err(StateError::InvalidSelectionCount)
        } else {
            match slot_active {
                Some(a) => if a < 6 && selected[a as int] && roster[a as int].spec_hp_curr() > 0 {
                    Ok(())
                } else {
                    Err(StateError::InvalidActiveSlot)
                },
                None => Ok(()),
            }
        }
    }

    pub fn new(roster: [PokemonState; 6], selected: [bool; 6], slot_active: Option<usize>) -> (r: Result<
        Self,
        StateError,
    >)
        ensures
            match TeamState::check(roster, selected, slot_active) {
                Err(e) => r == Err::<Self, StateError>(e),
                Ok(()) => r matches Ok(t) && t.spec_roster() == roster && t.spec_selected() == selected
                    && t.spec_slot_active() == slot_active,
            },
            r matches Ok(t) ==> t.wf(),
    {
        let mut count: usize = 0;
        let mut i: usize = 0;
        while i < 6
            invariant
                0 <= i <= 6,
                count == selected_count(
                    [
                        i > 0 && selected[0],
                        i > 1 && selected[1],
                        i > 2 && selected[2],
                        i > 3 && selected[3],
                        i > 4 && selected[4],
                        i > 5 && selected[5],
                    ],
                ),
            decreases 6 - i,
        {
            if selected[i] {
                count = count + 1;
            }
            i = i + 1;
        }
        assert([
            i > 0 && selected[0],
            i > 1 && selected[1],
            i > 2 && selected[2],
            i > 3 && selected[3],
            i > 4 && selected[4],
            i > 5 && selected[5],
        ] =~= selected);
        if count != 3 {
            return Err(StateError::InvalidSelectionCount);
        }
        if let Some(a) = slot_active {
            if a >= 6 {
                return Err(StateError::InvalidActiveSlot);
            }
            if !selected[a] || roster[a].hp_curr() == 0 {
                return Err(StateError::InvalidActiveSlot);
            }
        }
        Ok(TeamState { roster, selected, slot_active })
    }

    pub fn roster(&self) -> (r: &[PokemonState; 6])
        ensures
            *r == self.spec_roster(),
    {
        &self.roster
    }

    pub fn selected(&self) -> (r: &[bool; 6])
        ensures
            *r == self.spec_selected(),
    {
        &self.selected
    }

    pub fn slot_active(&self) -> (r: Option<usize>)
        ensures
            r == self.spec_slot_active(),
            self.wf(),
    {
        proof {
            use_type_invariant(self);
        }
        self.slot_active
    }

    /// The team after its active Pokemon takes `damage`: its HP drops, not below zero,
    /// and a Pokemon left at zero HP stops being active.
    pub open spec fn after_damage(self, damage: u32, result: TeamState) -> bool {
        match self.spec_slot_active() {
            Some(a) => {
                let hp = hp_after_damage(self.hp_of(a as int), damage);
                &&& result.spec_roster()@ == self.spec_roster()@.update(
                    a as int,
                    self.spec_roster()[a as int].with_hp(hp),
                )
                &&& result.spec_selected() == self.spec_selected()
                &&& result.spec_slot_active() == (if hp == 0 {
                    None
                } else {
                    Some(a)
                })
            },
            None => result == self,
        }
    }

    /// The team after its active Pokemon takes `damage`; unchanged when no Pokemon is active.
    pub closed spec fn damaged(self, damage: u32) -> TeamState {
        match self.slot_active {
            Some(a) => {
                let hp = hp_after_damage(self.roster[a as int].hp_curr, damage);
                TeamState {
                    roster: vstd::array::spec_array_update(self.roster, a as int, self.roster[a as int].with_hp(hp)),
                    selected: self.selected,
                    slot_active: if hp == 0 {
                        None
                    } else {
                        Some(a)
                    },
                }
            },
            None => self,
        }
    }

    /// What taking damage does to a team, and that the team stays well formed.
    pub proof fn lemma_damaged(self, damage: u32)
        requires
            self.wf(),
        ensures
            self.after_damage(damage, self.damaged(damage)),
            self.damaged(damage).wf(),
    {
        if let Some(a) = self.slot_active {
            let hp = hp_after_damage(self.roster[a as int].hp_curr, damage);
            self.roster[a as int].lemma_with_hp(hp);
            let t = self.damaged(damage);
            assert(t.selected == self.selected);
            assert forall|i: int| 0 <= i < 6 && i != a implies t.roster[i] == self.roster[i] by {}
        }
    }

    /// A team is determined by its roster, selection and active slot.
    pub proof fn lemma_views_determine(a: TeamState, b: TeamState)
        requires
            a.spec_roster() == b.spec_roster(),
            a.spec_selected() == b.spec_selected(),
            a.spec_slot_active() == b.spec_slot_active(),
        ensures
            a == b,
    {
    }

    /// `later` is this team after nothing but damage: the same selection, and each roster
    /// slot has the same maximum HP and move availability and no more HP than before.
    pub open spec fn worn_down_to(self, later: TeamState) -> bool {
        &&& later.spec_selected() == self.spec_selected()
        &&& forall|i: int|
            0 <= i < 6 ==> {
                &&& #[trigger] later.hp_of(i) <= self.hp_of(i)
                &&& later.spec_roster()[i].spec_hp_max() == self.spec_roster()[i].spec_hp_max()
                &&& later.spec_roster()[i].spec_moves() == self.spec_roster()[i].spec_moves()
            }
    }

    /// Damage never restores HP, and changes nothing but the active Pokemon's HP.
    pub proof fn lemma_damage_wears_down(self, damage: u32)
        requires
            self.wf(),
        ensures
            self.worn_down_to(self.damaged(damage)),
    {
        self.lemma_damaged(damage);
        if let Some(a) = self.slot_active {
            let hp = hp_after_damage(self.roster[a as int].hp_curr, damage);
            self.roster[a as int].lemma_with_hp(hp);
        }
    }

    /// The team with `slot` made active.
    pub closed spec fn switched(self, slot: usize) -> TeamState {
        TeamState { slot_active: Some(slot), ..self }
    }

    pub proof fn lemma_switched(self, slot: usize)
        requires
            self.wf(),
            self.can_be_active(slot as int),
        ensures
            self.switched(slot).spec_roster() == self.spec_roster(),
            self.switched(slot).spec_selected() == self.spec_selected(),
            self.switched(slot).spec_slot_active() == Some(slot),
            self.switched(slot).wf(),
    {
    }

    /// Applies damage to the active Pokemon. A Pokemon brought to zero HP faints and leaves
    /// the team without an active Pokemon. Fails when no Pokemon is active.
    pub fn damage_active(&mut self, damage: u32) -> (r: Result<(), StateError>)
        ensures
            r is Err <==> old(self).spec_slot_active() is None,
            r is Err ==> r == Err::<(), StateError>(StateError::InvalidActiveSlot),
            *final(self) == old(self).damaged(damage),
            old(self).after_damage(damage, *final(self)),
    {
        proof {
            use_type_invariant(&*self);
            self.lemma_damaged(damage);
        }
        match self.slot_active {
            None => Err(StateError::InvalidActiveSlot),
            Some(a) => {
                let pokemon = self.roster[a].take_damage(damage);
                let mut roster = self.roster;
                roster[a] = pokemon;
                let active = if pokemon.hp_curr == 0 {
                    None
                } else {
                    Some(a)
                };
                let ghost expected = self.damaged(damage);
                *self = TeamState { roster, selected: self.selected, slot_active: active };
                assert(self.roster@ =~= expected.roster@);
                Ok(())
            },
        }
    }

    /// Makes a selected, non-fainted slot the active one.
    pub fn switch_to(&mut self, slot: usize) -> (r: Result<(), StateError>)
        ensures
            r is Ok <==> old(self).can_be_active(slot as int),
            r is Err ==> r == Err::<(), StateError>(StateError::InvalidActiveSlot) && *final(self) == *old(self),
            r is Ok ==> *final(self) == old(self).switched(slot),
            r is Ok ==> final(self).spec_roster() == old(self).spec_roster()
                && final(self).spec_selected() == old(self).spec_selected()
                && final(self).spec_slot_active() == Some(slot),
    {
        proof {
            use_type_invariant(&*self);
        }
        if slot >= 6 || !self.selected[slot] || self.roster[slot].hp_curr == 0 {
            return Err(StateError::InvalidActiveSlot);
        }
        self.slot_active = Some(slot);
        Ok(())
    }

    /// Whether some selected Pokemon has not fainted.
    pub fn has_available_selected(&self) -> (r: bool)
        ensures
            r == self.any_available(),
    {
        let mut i: usize = 0;
        while i < 6
            invariant
                0 <= i <= 6,
                forall|j: int| 0 <= j < i ==> !#[trigger] self.can_be_active(j),
            decreases 6 - i,
        {
            if self.selected[i] && self.roster[i].hp_curr > 0 {
                assert(self.can_be_active(i as int));
                return true;
            }
            i = i + 1;
        }
        false
    }
}

/// The minimum internal simulator state of a Pokemon Champions Single Battle.
#[derive(Clone, Copy, Debug, PartialEq, Eq)]
pub struct BattleState {
    pub player: TeamState,
    pub opponent: TeamState,
    pub terminated: bool,
}


/// The public six-Pokemon rosters shown before team selection.
#[derive(Clone, Copy, Debug, PartialEq, Eq)]
pub struct TeamPreviewObservation {
    pub player: [PokemonState; 6],
    pub opponent: [PokemonState; 6],
}

/// A player-facing observation that cannot expose the opponent's selection mask.
#[derive(Clone, Copy, Debug, PartialEq, Eq)]
pub struct BattleObservation {
    pub player: TeamState,
    pub opponent: OpponentObservation,
    pub terminated: bool,
}

/// Battle state revealed about the opposing roster.
#[derive(Clone, Copy, Debug, PartialEq, Eq)]
pub struct OpponentObservation {
    roster: [PokemonState; 6],
    selection_revealed: [bool; 6],
    slot_active: Option<usize>,
}

impl OpponentObservation {
    pub closed spec fn spec_roster(self) -> [PokemonState; 6] {
        self.roster
    }

    pub closed spec fn spec_selection_revealed(self) -> [bool; 6] {
        self.selection_revealed
    }

    pub closed spec fn spec_slot_active(self) -> Option<usize> {
        self.slot_active
    }

    /// An observation is determined by its roster, reveal mask and active slot.
    pub proof fn lemma_views_determine(a: OpponentObservation, b: OpponentObservation)
        requires
            a.spec_roster() == b.spec_roster(),
            a.spec_selection_revealed() == b.spec_selection_revealed(),
            a.spec_slot_active() == b.spec_slot_active(),
        ensures
            a == b,
    {
    }

    /// Whether a reveal mask fits a team, as the result `OpponentObservation::new` gives.
    pub open spec fn check(team: TeamState, revealed: [bool; 6]) -> Result<(), StateError> {
        if exists|i: int| 0 <= i < 6 && #[trigger] revealed[i] && !team.spec_selected()[i] {
            Err(StateError::InvalidRevealedSelection)
        } else if team.spec_slot_active() matches Some(a) && !revealed[a as int] {
            Err(StateError::InvalidActiveSlot)
        } else {
            Ok(())
        }
    }

    /// The observation of a team whose reveal mask is `revealed`.
    pub open spec fn observes(self, team: TeamState, revealed: [bool; 6]) -> bool {
        &&& self.spec_roster() == team.spec_roster()
        &&& self.spec_selection_revealed() == revealed
        &&& self.spec_slot_active() == team.spec_slot_active()
    }

    pub fn new(team: &TeamState, selection_revealed: [bool; 6]) -> (r: Result<Self, StateError>)
        ensures
            match OpponentObservation::check(*team, selection_revealed) {
                Err(e) => r == Err::<Self, StateError>(e),
                Ok(()) => r matches Ok(o) && o.observes(*team, selection_revealed),
            },
    {
        let mut i: usize = 0;
        while i < 6
            invariant
                0 <= i <= 6,
                forall|j: int| 0 <= j < i ==> !(#[trigger] selection_revealed[j] && !team.spec_selected()[j]),
            decreases 6 - i,
        {
            if selection_revealed[i] && !team.selected[i] {
                assert(selection_revealed[i as int] && !team.spec_selected()[i as int]);
                return Err(StateError::InvalidRevealedSelection);
            }
            i = i + 1;
        }
        proof {
            use_type_invariant(team);
        }
        if let Some(active) = team.slot_active {
            if !selection_revealed[active] {
                return Err(StateError::InvalidActiveSlot);
            }
        }
        Ok(OpponentObservation { roster: team.roster, selection_revealed, slot_active: team.slot_active })
    }

    pub fn roster(&self) -> (r: &[PokemonState; 6])
        ensures
            *r == self.spec_roster(),
    {
        &self.roster
    }

    pub fn selection_revealed(&self) -> (r: &[bool; 6])
        ensures
            *r == self.spec_selection_revealed(),
    {
        &self.selection_revealed
    }

    pub fn slot_active(&self) -> (r: Option<usize>)
        ensures
            r == self.spec_slot_active(),
    {
        self.slot_active
    }
}

} // verus!
