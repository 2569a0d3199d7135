//! The exact terms of the player's reward for one step of an episode.
//!
//! The reward is zero-sum from the player's perspective: a newly completed battle scores a
//! win or a loss when exactly one selected team has fainted, each newly fainted Pokemon
//! scores for the other side, and the change in mean normalized HP across each selected
//! team scores too. This module computes the integer terms and the HP fractions exactly;
//! weighting and summing them is left to the caller.
use vstd::prelude::*;
use crate::battle::finished;
use crate::state::{BattleState, TeamState};

verus! {

/// The integer terms of a step's reward, and the HP snapshots its HP progress is computed from.
#[derive(Clone, Debug, PartialEq, Eq)]
pub struct RewardTerms {
    /// False when the battle had already ended before the step: such a step scores nothing.
    pub scored: bool,
    /// 1 for a win, -1 for a loss, 0 otherwise.
    pub outcome: i8,
    /// Newly fainted opponents minus newly fainted player Pokemon.
    pub faint_progress: i8,
    /// `(current HP, maximum HP)` of each selected Pokemon, in roster order.
    pub previous_player: Vec<(u32, u32)>,
    pub current_player: Vec<(u32, u32)>,
    pub previous_opponent: Vec<(u32, u32)>,
    pub current_opponent: Vec<(u32, u32)>,
}

/// Whether a selected slot's Pokemon fainted between two snapshots of a team.
pub open spec fn fainted_between(previous: TeamState, current: TeamState, slot: int) -> bool {
    previous.spec_selected()[slot] && previous.hp_of(slot) > 0 && current.hp_of(slot) == 0
}

/// How many selected Pokemon among the first `n` roster slots fainted between two snapshots.
pub open spec fn fainted_count(previous: TeamState, current: TeamState, n: int) -> int
    decreases n,
{
    if n <= 0 {
        0
    } else {
        fainted_count(previous, current, n - 1) + if fainted_between(previous, current, n - 1) {
            1int
        } else {
            0
        }
    }
}

/// Whether every selected Pokemon of a team has fainted.
pub open spec fn all_fainted(team: TeamState) -> bool {
    forall|slot: int| 0 <= slot < 6 && team.spec_selected()[slot] ==> team.hp_of(slot) == 0
}

/// The outcome term: 1 when only the opponent's team has fainted at the end of a battle,
/// -1 when only the player's has, 0 otherwise.
pub open spec fn outcome_term(current: BattleState) -> int {
    if current.terminated && !all_fainted(current.player) && all_fainted(current.opponent) {
        1
    } else if current.terminated && all_fainted(current.player) && !all_fainted(current.opponent) {
        -1
    } else {
        0
    }
}

/// `(current HP, maximum HP)` of the selected Pokemon among the first `n` slots, in roster order.
pub open spec fn selected_hp(team: TeamState, n: int) -> Seq<(u32, u32)>
    decreases n,
{
    if n <= 0 {
        Seq::empty()
    } else if team.spec_selected()[n - 1] {
        selected_hp(team, n - 1).push((team.hp_of(n - 1), team.spec_roster()[n - 1].spec_hp_max()))
    } else {
        selected_hp(team, n - 1)
    }
}

/// Two sets of terms with the same flags and the same HP snapshots.
pub open spec fn same_terms(a: RewardTerms, b: RewardTerms) -> bool {
    &&& a.scored == b.scored
    &&& a.outcome == b.outcome
    &&& a.faint_progress == b.faint_progress
    &&& a.previous_player@ == b.previous_player@
    &&& a.current_player@ == b.current_player@
    &&& a.previous_opponent@ == b.previous_opponent@
    &&& a.current_opponent@ == b.current_opponent@
}

/// What `reward_terms` computes for a step from `previous` to `current`.
pub open spec fn terms_of(previous: BattleState, current: BattleState, r: RewardTerms) -> bool {
    &&& r.scored == !previous.terminated
    &&& r.outcome == (if previous.terminated {
        0
    } else {
        outcome_term(current)
    })
    &&& r.faint_progress == (if previous.terminated {
        0
    } else {
        fainted_count(previous.opponent, current.opponent, 6) - fainted_count(previous.player, current.player, 6)
    })
    &&& r.previous_player@ == selected_hp(previous.player, 6)
    &&& r.current_player@ == selected_hp(current.player, 6)
    &&& r.previous_opponent@ == selected_hp(previous.opponent, 6)
    &&& r.current_opponent@ == selected_hp(current.opponent, 6)
}

/// Whether every selected Pokemon of a team has fainted.
pub fn all_selected_fainted(team: &TeamState) -> (r: bool)
    ensures
        r == all_fainted(*team),
{
    let mut slot: usize = 0;
    while slot < 6
        invariant
            0 <= slot <= 6,
            forall|j: int| 0 <= j < slot && team.spec_selected()[j] ==> team.hp_of(j) == 0,
        decreases 6 - slot,
    {
        if team.selected()[slot] && team.roster()[slot].hp_curr() != 0 {
            assert(team.spec_selected()[slot as int] && team.hp_of(slot as int) != 0);
            return false;
        }
        slot = slot + 1;
    }
    true
}

/// Counts the selected Pokemon that had HP in `previous` and have none in `current`.
pub fn newly_fainted(previous: &TeamState, current: &TeamState) -> (r: u8)
    ensures
        r == fainted_count(*previous, *current, 6),
        r <= 6,
{
    let mut count: u8 = 0;
    let mut slot: usize = 0;
    while slot < 6
        invariant
            0 <= slot <= 6,
            count == fainted_count(*previous, *current, slot as int),
            count <= slot,
        decreases 6 - slot,
    {
        if previous.selected()[slot] && previous.roster()[slot].hp_curr() > 0 && current.roster()[slot].hp_curr()
            == 0 {
            count = count + 1;
        }
        slot = slot + 1;
    }
    count
}

/// The `(current HP, maximum HP)` pairs of a team's selected Pokemon, in roster order.
pub fn selected_hp_pairs(team: &TeamState) -> (r: Vec<(u32, u32)>)
    ensures
        r@ == selected_hp(*team, 6),
{
    let mut pairs: Vec<(u32, u32)> = Vec::new();
    let mut slot: usize = 0;
    while slot < 6
        invariant
            0 <= slot <= 6,
            pairs@ == selected_hp(*team, slot as int),
        decreases 6 - slot,
    {
        if team.selected()[slot] {
            let p = team.roster()[slot];
            pairs.push((p.hp_curr(), p.hp_max()));
        }
        slot = slot + 1;
    }
    pairs
}

/// Computes the terms of the player's reward for a step from `previous` to `current`.
pub fn reward_terms(previous: &BattleState, current: &BattleState) -> (r: RewardTerms)
    ensures
        terms_of(*previous, *current, r),
{
    let scored = !previous.terminated;
    let outcome: i8 = if scored && current.terminated {
        let player_fainted = all_selected_fainted(&current.player);
        let opponent_fainted = all_selected_fainted(&current.opponent);
        if !player_fainted && opponent_fainted {
            1
        } else if player_fainted && !opponent_fainted {
            -1
        } else {
            0
        }
    } else {
        0
    };
    let faint_progress: i8 = if scored {
        let won = newly_fainted(&previous.opponent, &current.opponent);
        let lost = newly_fainted(&previous.player, &current.player);
        won as i8 - lost as i8
    } else {
        0
    };
    RewardTerms {
        scored,
        outcome,
        faint_progress,
        previous_player: selected_hp_pairs(&previous.player),
        current_player: selected_hp_pairs(&current.player),
        previous_opponent: selected_hp_pairs(&previous.opponent),
        current_opponent: selected_hp_pairs(&current.opponent),
    }
}

/// The same battle seen from the opponent's side.
pub open spec fn mirrored(state: BattleState) -> BattleState {
    BattleState { player: state.opponent, opponent: state.player, terminated: state.terminated }
}

/// The reward is zero-sum: the terms of a step seen from the opponent's side are the
/// player's terms with the outcome and the faint progress negated and the two teams' HP
/// snapshots exchanged.
pub proof fn lemma_reward_is_zero_sum(
    previous: BattleState,
    current: BattleState,
    player_terms: RewardTerms,
    opponent_terms: RewardTerms,
)
    requires
        terms_of(previous, current, player_terms),
        terms_of(mirrored(previous), mirrored(current), opponent_terms),
    ensures
        opponent_terms.scored == player_terms.scored,
        opponent_terms.outcome == -player_terms.outcome,
        opponent_terms.faint_progress == -player_terms.faint_progress,
        opponent_terms.previous_player@ == player_terms.previous_opponent@,
        opponent_terms.current_player@ == player_terms.current_opponent@,
        opponent_terms.previous_opponent@ == player_terms.previous_player@,
        opponent_terms.current_opponent@ == player_terms.current_player@,
{
}

proof fn lemma_no_faints_without_change(team: TeamState, n: int)
    requires
        0 <= n <= 6,
    ensures
        fainted_count(team, team, n) == 0,
    decreases n,
{
    if n > 0 {
        lemma_no_faints_without_change(team, n - 1);
    }
}

/// A step that leaves a running battle as it was scores nothing: no outcome, no faint
/// progress, and the same HP before and after on both sides.
pub proof fn lemma_unchanged_step_scores_nothing(state: BattleState, terms: RewardTerms)
    requires
        !state.terminated,
        terms_of(state, state, terms),
    ensures
        terms.scored,
        terms.outcome == 0,
        terms.faint_progress == 0,
        terms.previous_player@ == terms.current_player@,
        terms.previous_opponent@ == terms.current_opponent@,
{
    lemma_no_faints_without_change(state.player, 6);
    lemma_no_faints_without_change(state.opponent, 6);
}

/// A team has no selected Pokemon left that can battle exactly when all of them fainted.
pub proof fn lemma_out_of_pokemon_iff_all_fainted(team: TeamState)
    ensures
        !team.any_available() <==> all_fainted(team),
{
    if all_fainted(team) {
        assert forall|i: int| !#[trigger] team.can_be_active(i) by {
            if 0 <= i < 6 && team.spec_selected()[i] {
                assert(team.hp_of(i) == 0);
            }
        }
    } else {
        let i = choose|i: int| 0 <= i < 6 && team.spec_selected()[i] && team.hp_of(i) != 0;
        assert(team.can_be_active(i));
    }
}

/// A battle ends exactly when every selected Pokemon of one side has fainted, and the step
/// that ends it scores a win when only the opponent's side is out and a loss when only the
/// player's side is.
pub proof fn lemma_battle_ends_when_a_side_is_out(state: BattleState)
    ensures
        finished(state).terminated <==> all_fainted(state.player) || all_fainted(state.opponent),
        outcome_term(finished(state)) == 1 <==> !all_fainted(state.player) && all_fainted(state.opponent),
        outcome_term(finished(state)) == -1 <==> all_fainted(state.player) && !all_fainted(state.opponent),
{
    lemma_out_of_pokemon_iff_all_fainted(state.player);
    lemma_out_of_pokemon_iff_all_fainted(state.opponent);
}

} // verus!
