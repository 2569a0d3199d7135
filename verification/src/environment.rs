//! A minimal episode loop around a battle-state transition function.
use vstd::prelude::*;
use crate::action::{Action, ActionError, preview_action_check, selection_valid};
use crate::battle::{Battle, TurnRolls, finished, needs_resolution, resolution_done, resolve_turn, turn_candidate};
use crate::info::Pokemon;
use crate::reward::{RewardTerms, reward_terms, same_terms, terms_of};
use crate::state::{BattleObservation, BattleState, OpponentObservation, PokemonState, StateError,
    TeamPreviewObservation, TeamState};

verus! {

/// An observation returned to the player during an episode.
#[derive(Clone, Copy, Debug, PartialEq, Eq)]
pub enum Observation {
    TeamPreview(TeamPreviewObservation),
    Battle(BattleObservation),
}

#[derive(Clone, Debug, PartialEq, Eq)]
pub struct StepOutcome {
    pub observation: Observation,
    pub reward: RewardTerms,
    pub terminated: bool,
}

/// A minimal episode loop around a battle-state transition function.
pub struct Environment<F> {
    preview: TeamPreviewObservation,
    opponent: TeamState,
    battle: Option<Battle>,
    opponent_revealed: [bool; 6],
    transition: F,
}

/// The selection mask with exactly the three selected slots set.
pub open spec fn selection_mask(selection: [usize; 3]) -> [bool; 6] {
    [
        selection[0] == 0 || selection[1] == 0 || selection[2] == 0,
        selection[0] == 1 || selection[1] == 1 || selection[2] == 1,
        selection[0] == 2 || selection[1] == 2 || selection[2] == 2,
        selection[0] == 3 || selection[1] == 3 || selection[2] == 3,
        selection[0] == 4 || selection[1] == 4 || selection[2] == 4,
        selection[0] == 5 || selection[1] == 5 || selection[2] == 5,
    ]
}

/// The team for a valid selection: the three selected slots, led by the first. Fails with
/// `InvalidTeamSelection` when the lead has fainted.
pub open spec fn selected_team_outcome(roster: [PokemonState; 6], selection: [usize; 3]) -> Result<
    (),
    ActionError,
> {
    match TeamState::check(roster, selection_mask(selection), Some(selection[0])) {
        Ok(()) => Ok(()),
        Err(_) => Err(ActionError::InvalidTeamSelection),
    }
}

/// A team built by `selected_team` from a roster and a valid selection.
pub open spec fn is_selected_team(team: TeamState, roster: [PokemonState; 6], selection: [usize; 3]) -> bool {
    &&& team.spec_roster() == roster
    &&& team.spec_selected() == selection_mask(selection)
    &&& team.spec_slot_active() == Some(selection[0])
}

proof fn lemma_selection_mask_count(selection: [usize; 3])
    requires
        selection_valid(selection),
    ensures
        crate::state::selected_count(selection_mask(selection)) == 3,
        selection_mask(selection)[selection[0] as int],
{
}

fn selected_team(roster: [PokemonState; 6], selection: [usize; 3]) -> (r: Result<TeamState, ActionError>)
    requires
        selection_valid(selection),
    ensures
        match selected_team_outcome(roster, selection) {
            Err(e) => r == Err::<TeamState, ActionError>(e),
            Ok(()) => r matches Ok(t) && is_selected_team(t, roster, selection),
        },
{
    let mut selected = [false, false, false, false, false, false];
    selected[selection[0]] = true;
    selected[selection[1]] = true;
    selected[selection[2]] = true;
    proof {
        lemma_selection_mask_count(selection);
    }
    assert(selected =~= selection_mask(selection));
    match TeamState::new(roster, selected, Some(selection[0])) {
        Ok(t) => Ok(t),
        Err(_) => Err(ActionError::InvalidTeamSelection),
    }
}

/// The observation of a battle state for a reveal mask, or why it cannot be formed.
pub open spec fn observation_of(state: BattleState, revealed: [bool; 6], obs: BattleObservation) -> bool {
    &&& obs.player == state.player
    &&& obs.opponent.observes(state.opponent, revealed)
    &&& obs.terminated == state.terminated
}

fn observation(state: &BattleState, opponent_revealed: [bool; 6]) -> (r: Result<BattleObservation, ActionError>)
    ensures
        match OpponentObservation::check(state.opponent, opponent_revealed) {
            Err(_) => r == Err::<BattleObservation, ActionError>(ActionError::InvalidTeamSelection),
            Ok(()) => r matches Ok(o) && observation_of(*state, opponent_revealed, o),
        },
{
    let opponent = match OpponentObservation::new(&state.opponent, opponent_revealed) {
        Ok(o) => o,
        Err(_) => return Err(ActionError::InvalidTeamSelection),
    };
    Ok(BattleObservation { player: state.player, opponent, terminated: state.terminated })
}

/// The reveal mask after the opponent's active Pokemon, if any, is seen.
pub open spec fn revealed_after(revealed: [bool; 6], team: TeamState) -> [bool; 6] {
    match team.spec_slot_active() {
        Some(a) => vstd::array::spec_array_update(revealed, a as int, true),
        None => revealed,
    }
}

/// The reveal mask after a turn: a Pokemon the opponent switched in is seen even if it
/// fainted on the way in, and so is the opponent's active Pokemon, if any.
pub open spec fn revealed_after_turn(revealed: [bool; 6], team: TeamState, opponent_action: Action) -> [bool; 6] {
    let switched = match opponent_action {
        Action::Switch(slot) => if slot < 6 {
            vstd::array::spec_array_update(revealed, slot as int, true)
        } else {
            revealed
        },
        _ => revealed,
    };
    revealed_after(switched, team)
}

/// What a successful battle step returns after the battle went from `previous` to `current`
/// and the reveal mask became `revealed`.
pub open spec fn battle_step_outcome(
    previous: BattleState,
    current: BattleState,
    revealed: [bool; 6],
    out: StepOutcome,
) -> bool {
    &&& out.observation matches Observation::Battle(o) && observation_of(current, revealed, o)
    &&& terms_of(previous, current, out.reward)
    &&& out.terminated == current.terminated
}

/// How a step during team preview ends: the player's `SelectTeam` starts the battle with the
/// selected team, led by its first slot, against the opponent's team, and reveals the
/// opponent's lead; anything else fails and leaves the episode in team preview.
pub open spec fn selection_step_done(
    preview: TeamPreviewObservation,
    opponent: TeamState,
    revealed_before: [bool; 6],
    action: Action,
    r: Result<StepOutcome, ActionError>,
    battle_now: Option<BattleState>,
    revealed_now: [bool; 6],
) -> bool {
    let unchanged = battle_now is None && revealed_now == revealed_before;
    match action {
        Action::SelectTeam(selection) => if !selection_valid(selection) {
            r == Err::<StepOutcome, ActionError>(ActionError::InvalidTeamSelection) && unchanged
        } else {
            match selected_team_outcome(preview.player, selection) {
                Err(e) => r == Err::<StepOutcome, ActionError>(e) && unchanged,
                Ok(()) => {
                    let revealed = revealed_after(revealed_before, opponent);
                    &&& r matches Ok(out)
                    &&& battle_now matches Some(state)
                    &&& is_selected_team(state.player, preview.player, selection)
                    &&& state.opponent == opponent
                    &&& !state.terminated
                    &&& revealed_now == revealed
                    &&& out.observation matches Observation::Battle(o) && observation_of(state, revealed, o)
                    &&& opening_terms(state, out.reward)
                    &&& !out.terminated
                },
            }
        },
        _ => r == Err::<StepOutcome, ActionError>(ActionError::WrongPhase) && unchanged,
    }
}

/// Starting a battle is deterministic: the same preview, opponent team, reveal mask and
/// action give the same result, battle, reveal mask, observation and reward terms. In
/// particular, after `reset` the same selection starts the same battle again.
pub proof fn lemma_selection_step_is_deterministic(
    preview: TeamPreviewObservation,
    opponent: TeamState,
    revealed: [bool; 6],
    action: Action,
    r1: Result<StepOutcome, ActionError>,
    battle1: Option<BattleState>,
    revealed1: [bool; 6],
    r2: Result<StepOutcome, ActionError>,
    battle2: Option<BattleState>,
    revealed2: [bool; 6],
)
    requires
        selection_step_done(preview, opponent, revealed, action, r1, battle1, revealed1),
        selection_step_done(preview, opponent, revealed, action, r2, battle2, revealed2),
    ensures
        battle1 == battle2,
        revealed1 == revealed2,
        r1 is Err ==> r1 == r2,
        r1 matches Ok(o1) ==> r2 matches Ok(o2) && o1.observation == o2.observation && o1.terminated
            == o2.terminated && same_terms(o1.reward, o2.reward),
{
    if let (Some(s1), Some(s2)) = (battle1, battle2) {
        TeamState::lemma_views_determine(s1.player, s2.player);
        if let (Ok(o1), Ok(o2)) = (r1, r2) {
            if let (Observation::Battle(b1), Observation::Battle(b2)) = (o1.observation, o2.observation) {
                TeamState::lemma_views_determine(b1.player, b2.player);
                OpponentObservation::lemma_views_determine(b1.opponent, b2.opponent);
            }
        }
    }
}

/// How a turn step that took the battle from `previous` to `after` ends: with the reveal
/// mask updated and an observation, or, when the updated mask does not fit the opponent's
/// team, with `InvalidTeamSelection` and the episode as it was.
pub open spec fn turn_step_done(
    previous: BattleState,
    after: BattleState,
    revealed_before: [bool; 6],
    opponent_action: Action,
    r: Result<StepOutcome, ActionError>,
    battle_now: Option<BattleState>,
    revealed_now: [bool; 6],
) -> bool {
    let revealed = revealed_after_turn(revealed_before, after.opponent, opponent_action);
    match OpponentObservation::check(after.opponent, revealed) {
        Err(_) => r == Err::<StepOutcome, ActionError>(ActionError::InvalidTeamSelection) && battle_now == Some(
            previous,
        ) && revealed_now == revealed_before,
        Ok(()) => r matches Ok(out) && battle_now == Some(after) && revealed_now == revealed
            && battle_step_outcome(previous, after, revealed, out),
    }
}

/// The reward terms of a step that starts the battle: those of a step that changes nothing.
pub open spec fn opening_terms(state: BattleState, r: RewardTerms) -> bool {
    terms_of(state, state, r)
}

impl<F> Environment<F> {
    /// The opponent's team has its lead active, and nothing is revealed before a battle.
    pub closed spec fn wf(self) -> bool {
        &&& self.opponent.spec_slot_active() is Some
        &&& (self.battle is None ==> self.opponent_revealed == [false, false, false, false, false, false])
    }

    pub closed spec fn spec_preview(&self) -> TeamPreviewObservation {
        self.preview
    }

    pub closed spec fn spec_opponent(&self) -> TeamState {
        self.opponent
    }

    /// The running battle's state, or `None` during team preview.
    pub closed spec fn spec_battle(&self) -> Option<BattleState> {
        match self.battle {
            Some(b) => Some(b.spec_state()),
            None => None,
        }
    }

    pub closed spec fn spec_revealed(&self) -> [bool; 6] {
        self.opponent_revealed
    }

    pub closed spec fn spec_transition(&self) -> F {
        self.transition
    }

}

impl<F: Fn(&mut BattleState, Action, Action) -> Result<(), ActionError>> Environment<F> {
    /// The transition can be called on every state and pair of actions.
    pub closed spec fn transition_accepts_all(&self) -> bool {
        forall|s: &mut BattleState, a: Action, b: Action| call_requires(self.transition, (s, a, b))
    }

    /// Creates an environment in team preview. The opponent's selection is fixed here; its
    /// first slot is the opponent's lead.
    pub fn new(preview: TeamPreviewObservation, opponent_selection: [usize; 3], transition: F) -> (r: Result<
        Self,
        ActionError,
    >)
        ensures
            !selection_valid(opponent_selection) ==> r == Err::<Self, ActionError>(
                ActionError::InvalidTeamSelection,
            ),
            selection_valid(opponent_selection) ==> match selected_team_outcome(
                preview.opponent,
                opponent_selection,
            ) {
                Err(e) => r == Err::<Self, ActionError>(e),
                Ok(()) => r matches Ok(env) && env.spec_preview() == preview && is_selected_team(
                    env.spec_opponent(),
                    preview.opponent,
                    opponent_selection,
                ) && env.spec_battle() is None && env.spec_revealed() == [false, false, false, false, false, false]
                    && env.wf() && env.spec_transition() == transition && ((forall|s: &mut BattleState, a: Action, b: Action|
                    call_requires(transition, (s, a, b))) ==> env.transition_accepts_all()),
            },
    {
        preview.validate_player_action(Action::SelectTeam(opponent_selection))?;
        let opponent = selected_team(preview.opponent, opponent_selection)?;
        Ok(Environment { preview, opponent, battle: None, opponent_revealed: [false, false, false, false, false, false], transition })
    }

    /// Returns to team preview, forgetting the battle and what was revealed.
    pub fn reset(&mut self) -> (r: Observation)
        requires
            old(self).wf(),
        ensures
            r == Observation::TeamPreview(old(self).spec_preview()),
            final(self).spec_preview() == old(self).spec_preview(),
            final(self).spec_opponent() == old(self).spec_opponent(),
            final(self).spec_battle() is None,
            final(self).spec_revealed() == [false, false, false, false, false, false],
            final(self).wf(),
            final(self).spec_transition() == old(self).spec_transition(),
            final(self).transition_accepts_all() == old(self).transition_accepts_all(),
    {
        self.opponent_revealed = [false, false, false, false, false, false];
        self.battle = None;
        Observation::TeamPreview(self.preview)
    }

    /// Takes one step. During team preview the player's `SelectTeam` starts the battle and the
    /// opponent action is ignored; afterwards both actions play a turn through the transition.
    /// A failed step leaves the episode as it was.
    pub fn step(&mut self, action: Action, opponent_action: Action) -> (r: Result<StepOutcome, ActionError>)
        requires
            old(self).wf(),
            old(self).transition_accepts_all(),
        ensures
            final(self).wf(),
            final(self).transition_accepts_all() == old(self).transition_accepts_all(),
            final(self).spec_transition() == old(self).spec_transition(),
            final(self).spec_preview() == old(self).spec_preview(),
            final(self).spec_opponent() == old(self).spec_opponent(),
            r is Err ==> final(self).spec_battle() == old(self).spec_battle() && final(self).spec_revealed()
                == old(self).spec_revealed(),
            old(self).spec_battle() is None ==> selection_step_done(old(self).spec_preview(), old(self).spec_opponent(),
                old(self).spec_revealed(), action, r, final(self).spec_battle(), final(self).spec_revealed()),
            old(self).spec_battle() matches Some(before) ==> match turn_candidate(before, action, opponent_action) {
                Err(e) => r == Err::<StepOutcome, ActionError>(e) && final(self).spec_battle() == Some(before) && final(self).spec_revealed()
                    == old(self).spec_revealed(),
                Ok(candidate) => if !needs_resolution(before, action, opponent_action) {
                    turn_step_done(before, finished(candidate), old(self).spec_revealed(), opponent_action, r, final(self).spec_battle(),
                        final(self).spec_revealed())
                } else {
                    exists|t: &mut BattleState, res: Result<(), ActionError>|
                        #[trigger] call_ensures(old(self).spec_transition(), (t, action, opponent_action), res) && *t == candidate
                            && match res {
                            Err(e) => r == Err::<StepOutcome, ActionError>(e) && final(self).spec_battle() == Some(before)
                                && final(self).spec_revealed() == old(self).spec_revealed(),
                            Ok(()) => turn_step_done(before, finished(*final(t)), old(self).spec_revealed(), opponent_action, r,
                                final(self).spec_battle(), final(self).spec_revealed()),
                        }
                },
            },
    {
        proof {
            use_type_invariant(&self.opponent);
        }
        if self.battle.is_none() {
            return self.start_battle(action);
        }
        let previous = match self.battle {
            Some(b) => b,
            None => return Err(ActionError::WrongPhase),
        };
        let opponent_revealed = self.opponent_revealed;
        assert(old(self).spec_transition() == old(self).transition);
        let outcome = self.play_step(previous, action, opponent_action);
        if outcome.is_err() {
            self.battle = Some(previous);
            self.opponent_revealed = opponent_revealed;
        }
        outcome
    }

    /// Starts the battle from team preview with the player's `SelectTeam`.
    fn start_battle(&mut self, action: Action) -> (r: Result<StepOutcome, ActionError>)
        requires
            old(self).wf(),
            old(self).spec_battle() is None,
        ensures
            final(self).wf(),
            final(self).transition == old(self).transition,
            final(self).preview == old(self).preview,
            final(self).opponent == old(self).opponent,
            r is Err ==> final(self).spec_battle() == old(self).spec_battle() && final(self).spec_revealed()
                == old(self).spec_revealed(),
            selection_step_done(old(self).spec_preview(), old(self).spec_opponent(), old(self).spec_revealed(), action,
                r, final(self).spec_battle(), final(self).spec_revealed()),
    {
        proof {
            use_type_invariant(&self.opponent);
        }
        let selection = match action {
            Action::SelectTeam(selection) => selection,
            _ => return Err(ActionError::WrongPhase),
        };
        self.preview.validate_player_action(action)?;
        let player = selected_team(self.preview.player, selection)?;
        let opponent = self.opponent;
        let lead = match opponent.slot_active() {
            Some(a) => a,
            None => return Err(ActionError::InvalidState(StateError::InvalidActiveSlot)),
        };
        let state = BattleState { player, opponent, terminated: false };
        self.battle = Some(Battle::new(state));
        self.opponent_revealed[lead] = true;
        let obs = observation(&state, self.opponent_revealed)?;
        Ok(StepOutcome {
            observation: Observation::Battle(obs),
            reward: reward_terms(&state, &state),
            terminated: false,
        })
    }

    fn play_step(&mut self, previous: Battle, action: Action, opponent_action: Action) -> (r: Result<StepOutcome, ActionError>)
        requires
            old(self).battle == Some(previous),
            old(self).wf(),
            old(self).transition_accepts_all(),
        ensures
            final(self).wf(),
            final(self).transition == old(self).transition,
            final(self).preview == old(self).preview,
            final(self).opponent == old(self).opponent,
            r is Ok ==> match turn_candidate(previous.spec_state(), action, opponent_action) {
                Err(e) => r == Err::<StepOutcome, ActionError>(e) && final(self).spec_battle() == Some(previous.spec_state()) && final(self).spec_revealed()
                    == old(self).spec_revealed(),
                Ok(candidate) => if !needs_resolution(previous.spec_state(), action, opponent_action) {
                    turn_step_done(previous.spec_state(), finished(candidate), old(self).spec_revealed(), opponent_action, r, final(self).spec_battle(),
                        final(self).spec_revealed())
                } else {
                    exists|t: &mut BattleState, res: Result<(), ActionError>|
                        #[trigger] call_ensures(old(self).transition, (t, action, opponent_action), res) && *t == candidate
                            && match res {
                            Err(e) => r == Err::<StepOutcome, ActionError>(e) && final(self).spec_battle() == Some(previous.spec_state())
                                && final(self).spec_revealed() == old(self).spec_revealed(),
                            Ok(()) => turn_step_done(previous.spec_state(), finished(*final(t)), old(self).spec_revealed(), opponent_action, r,
                                final(self).spec_battle(), final(self).spec_revealed()),
                        }
                },
            },
            r is Err ==> match turn_candidate(previous.spec_state(), action, opponent_action) {
                Err(e) => r == Err::<StepOutcome, ActionError>(e),
                Ok(candidate) => if !needs_resolution(previous.spec_state(), action, opponent_action) {
                    turn_step_done(previous.spec_state(), finished(candidate), old(self).spec_revealed(), opponent_action, r, Some(previous.spec_state()),
                        old(self).spec_revealed())
                } else {
                    exists|t: &mut BattleState, res: Result<(), ActionError>|
                        #[trigger] call_ensures(old(self).transition, (t, action, opponent_action), res) && *t == candidate
                            && match res {
                            Err(e) => r == Err::<StepOutcome, ActionError>(e),
                            Ok(()) => turn_step_done(previous.spec_state(), finished(*final(t)), old(self).spec_revealed(), opponent_action, r,
                                Some(previous.spec_state()), old(self).spec_revealed()),
                        }
                },
            },
    {
        let mut battle = previous;
        let state = {
            let s = battle.play_turn(action, opponent_action, &self.transition)?;
            *s
        };
        self.battle = Some(battle);
        if let Action::Switch(slot) = opponent_action {
            if slot < 6 {
                self.opponent_revealed[slot] = true;
            }
        }
        if let Some(active) = state.opponent.slot_active() {
            self.opponent_revealed[active] = true;
        }
        let obs = observation(&state, self.opponent_revealed)?;
        Ok(StepOutcome {
            observation: Observation::Battle(obs),
            reward: reward_terms(previous.state(), &state),
            terminated: state.terminated,
        })
    }
}

/// Whether a Pokemon's current and maximum HP make a valid battle state.
pub open spec fn hp_valid(p: Pokemon) -> bool {
    p.stats.hp != 0 && p.current_hp <= p.stats.hp
}

/// Whether every Pokemon of a roster has valid HP.
pub open spec fn roster_hp_valid(roster: [Pokemon; 6]) -> bool {
    forall|i: int| 0 <= i < 6 ==> hp_valid(#[trigger] roster[i])
}

/// The preview state of a Pokemon: its HP, with all four moves available.
pub open spec fn previews(state: PokemonState, p: Pokemon) -> bool {
    &&& state.spec_hp_curr() == p.current_hp
    &&& state.spec_hp_max() == p.stats.hp
    &&& state.spec_moves() == [true, true, true, true]
}

/// The preview states of a roster, failing with `InvalidState(InvalidHp)` if any Pokemon's HP
/// is invalid.
fn preview_roster(roster: &[Pokemon; 6]) -> (r: Result<[PokemonState; 6], ActionError>)
    ensures
        roster_hp_valid(*roster) ==> (r matches Ok(states) && forall|i: int|
            0 <= i < 6 ==> previews(#[trigger] states[i], roster[i])),
        !roster_hp_valid(*roster) ==> r == Err::<[PokemonState; 6], ActionError>(
            ActionError::InvalidState(StateError::InvalidHp),
        ),
{
    let mut out: Vec<PokemonState> = Vec::new();
    let mut i: usize = 0;
    while i < 6
        invariant
            0 <= i <= 6,
            out@.len() == i,
            forall|j: int| 0 <= j < i ==> hp_valid(#[trigger] roster[j]),
            forall|j: int| 0 <= j < i ==> previews(#[trigger] out@[j], roster[j]),
        decreases 6 - i,
    {
        let p = &roster[i];
        match PokemonState::new(p.current_hp as u32, p.stats.hp as u32, [true, true, true, true]) {
            Ok(state) => out.push(state),
            Err(e) => {
                assert(!hp_valid(roster[i as int]));
                return Err(ActionError::InvalidState(e));
            },
        }
        i = i + 1;
    }
    Ok([out[0], out[1], out[2], out[3], out[4], out[5]])
}

impl Environment<()> {
    /// Creates an environment whose turns are resolved with the calculation data of the Pokemon
    /// in the given rosters. Roster slots are preserved; the first selected slot is each side's
    /// lead. `reset` restores the supplied HP and returns to team preview.
    pub fn from_rosters(player: [Pokemon; 6], opponent: [Pokemon; 6], opponent_selection: [usize; 3]) -> (r:
        Result<Environment<impl Fn(&mut BattleState, Action, Action) -> Result<(), ActionError>>, ActionError>)
        ensures
            !(roster_hp_valid(player) && roster_hp_valid(opponent)) ==> (
            r matches Err(e) && e == ActionError::InvalidState(StateError::InvalidHp)),
            (roster_hp_valid(player) && roster_hp_valid(opponent) && (
            !selection_valid(opponent_selection) || opponent[opponent_selection[0] as int].current_hp == 0)) ==> (
            r matches Err(e) && e == ActionError::InvalidTeamSelection),
            r matches Ok(env) ==> {
                &&& roster_hp_valid(player) && roster_hp_valid(opponent)
                &&& forall|i: int| 0 <= i < 6 ==> previews(#[trigger] env.spec_preview().player[i], player[i])
                    && previews(env.spec_preview().opponent[i], opponent[i])
                &&& selection_valid(opponent_selection)
                &&& is_selected_team(env.spec_opponent(), env.spec_preview().opponent, opponent_selection)
                &&& env.spec_battle() is None
                &&& env.spec_revealed() == [false, false, false, false, false, false]
                &&& env.wf()
                &&& env.transition_accepts_all()
                &&& forall|t: &mut BattleState, a: Action, b: Action, res: Result<(), ActionError>|
                    #[trigger] call_ensures(env.spec_transition(), (t, a, b), res) ==> exists|rolls: TurnRolls|
                        rolls.in_range() && #[trigger] resolution_done(*t, *final(t), &player, &opponent, a, b,
                            rolls, res)
            },
            (roster_hp_valid(player) && roster_hp_valid(opponent)
                && selection_valid(opponent_selection) && opponent[opponent_selection[0] as int].current_hp > 0)
                ==> r is Ok,
    {
        let preview_player = preview_roster(&player)?;
        let preview_opponent = preview_roster(&opponent)?;
        let preview = TeamPreviewObservation { player: preview_player, opponent: preview_opponent };
        let transition = move |state: &mut BattleState, action: Action, opponent_action: Action| -> (res: Result<
            (),
            ActionError,
        >)
            ensures
                exists|rolls: TurnRolls|
                    rolls.in_range() && #[trigger] resolution_done(*old(state), *final(state), &player, &opponent,
                        action, opponent_action, rolls, res),
        {
            resolve_turn(state, &player, &opponent, action, opponent_action)
        };
        Environment::new(preview, opponent_selection, transition)
    }
}

} // verus!
