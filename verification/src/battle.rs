//! Turn resolution, and the battle that owns its state.
use vstd::prelude::*;
use crate::action::{Action, ActionError, team_action_check};
use crate::damage::{DamageResult, Fraction, MAX_DAMAGE_PERCENT, MIN_DAMAGE_PERCENT, calculate_damage_with_roll,
    damage_outcome};
use crate::info::{BattleError, Move, MoveCategory, Pokemon};
use crate::roll::{coin_flip, thread_roll};
use crate::state::{BattleState, StateError, TeamState};
use crate::text::text_equal;

verus! {

/// What one attack did.
#[derive(Debug, Clone, PartialEq, Eq)]
pub struct Attackresult {
    pub attacker: String,
    pub defender: String,
    pub move_name: String,
    pub damage: u16,
    pub effectiveness: Fraction,
    /// The attack hit nothing: the target had fainted, or it protected itself.
    pub blocked: bool,
    pub defender_hp_after: u32,
}

/// What the attacks of one turn did, in the order they happened.
#[derive(Debug, Clone, PartialEq, Eq)]
pub struct Turnresult {
    pub first: Attackresult,
    pub second: Option<Attackresult>,
}

#[derive(Debug, Clone, Copy, PartialEq, Eq, Structural)]
pub enum TurnOrder {
    FirstPokemon,
    SecondPokemon,
}

/// The random draws that resolving one turn may use: the damage percentage of the first
/// and of the second attack, and who moves first when priority and Speed tie.
#[derive(Debug, Clone, Copy, PartialEq, Eq)]
pub struct TurnRolls {
    pub first_roll: u8,
    pub second_roll: u8,
    pub first_wins_speed_tie: bool,
}

impl TurnRolls {
    /// Damage percentages in 85..=100.
    pub open spec fn in_range(self) -> bool {
        MIN_DAMAGE_PERCENT <= self.first_roll <= MAX_DAMAGE_PERCENT && MIN_DAMAGE_PERCENT <= self.second_roll <= MAX_DAMAGE_PERCENT
    }
}

/// Draws the random values of one turn.
pub fn draw_turn_rolls() -> (r: TurnRolls)
    ensures
        r.in_range(),
{
    let first_roll = thread_roll(MIN_DAMAGE_PERCENT, MAX_DAMAGE_PERCENT);
    let second_roll = thread_roll(MIN_DAMAGE_PERCENT, MAX_DAMAGE_PERCENT);
    let first_wins_speed_tie = coin_flip();
    TurnRolls { first_roll, second_roll, first_wins_speed_tie }
}

/// Whether a move is Protect or Detect, which block a damaging move used after them.
pub open spec fn protective(m: Move) -> bool {
    m.category == MoveCategory::Status && (m.name@ == "Protect"@ || m.name@ == "Detect"@)
}

pub fn is_protective_status_move(selected_move: &Move) -> (r: bool)
    ensures
        r == protective(*selected_move),
{
    let is_status = match selected_move.category {
        MoveCategory::Status => true,
        _ => false,
    };
    is_status && (text_equal(selected_move.name.as_str(), "Protect") || text_equal(
        selected_move.name.as_str(),
        "Detect",
    ))
}

pub fn validate_move_index(pokemon: &Pokemon, move_index: usize) -> (r: Result<(), BattleError>)
    ensures
        move_index < 4 <==> r is Ok,
        move_index >= 4 ==> r == Err::<(), BattleError>(BattleError::InvalidMoveIndex { index: move_index }),
{
    if move_index < 4 {
        Ok(())
    } else {
        Err(BattleError::InvalidMoveIndex { index: move_index })
    }
}

/// Who moves first: the higher move priority, then the higher Speed; a full tie is broken
/// by `first_wins_tie`.
pub open spec fn order_by_keys(
    first_priority: i8,
    first_speed: u16,
    second_priority: i8,
    second_speed: u16,
    first_wins_tie: bool,
) -> TurnOrder {
    if first_priority > second_priority || (first_priority == second_priority && first_speed
        > second_speed) {
        TurnOrder::FirstPokemon
    } else if first_priority < second_priority || (first_priority == second_priority
        && first_speed < second_speed) {
        TurnOrder::SecondPokemon
    } else if first_wins_tie {
        TurnOrder::FirstPokemon
    } else {
        TurnOrder::SecondPokemon
    }
}

/// The turn order of two Pokemon using the moves in the given slots.
pub open spec fn turn_order_outcome(
    first: &Pokemon,
    second: &Pokemon,
    first_slot: usize,
    second_slot: usize,
    first_wins_tie: bool,
) -> Result<TurnOrder, BattleError> {
    if first_slot >= 4 {
        Err(BattleError::InvalidMoveIndex { index: first_slot })
    } else if second_slot >= 4 {
        Err(BattleError::InvalidMoveIndex { index: second_slot })
    } else {
        Ok(
            order_by_keys(
                first.moves[first_slot as int].priority,
                first.stats.speed,
                second.moves[second_slot as int].priority,
                second.stats.speed,
                first_wins_tie,
            ),
        )
    }
}

/// Turn order is decided by move priority first and Speed second: a strictly higher priority
/// always moves first whatever the Speed; at equal priority the faster Pokemon moves first; a
/// full tie goes to the side the tie-break names. Listing the two sides the other way round
/// gives the other side, with the tie-break turned round too.
pub proof fn lemma_priority_then_speed(
    first: &Pokemon,
    second: &Pokemon,
    first_slot: usize,
    second_slot: usize,
    first_wins_tie: bool,
)
    requires
        first_slot < 4,
        second_slot < 4,
    ensures
        ({
            let p1 = first.moves[first_slot as int].priority;
            let p2 = second.moves[second_slot as int].priority;
            let s1 = first.stats.speed;
            let s2 = second.stats.speed;
            let order = turn_order_outcome(first, second, first_slot, second_slot, first_wins_tie);
            &&& p1 > p2 ==> order == Ok::<TurnOrder, BattleError>(TurnOrder::FirstPokemon)
            &&& p1 < p2 ==> order == Ok::<TurnOrder, BattleError>(TurnOrder::SecondPokemon)
            &&& p1 == p2 && s1 > s2 ==> order == Ok::<TurnOrder, BattleError>(TurnOrder::FirstPokemon)
            &&& p1 == p2 && s1 < s2 ==> order == Ok::<TurnOrder, BattleError>(TurnOrder::SecondPokemon)
            &&& p1 == p2 && s1 == s2 ==> order == Ok::<TurnOrder, BattleError>(
                if first_wins_tie {
                    TurnOrder::FirstPokemon
                } else {
                    TurnOrder::SecondPokemon
                },
            )
        }),
        turn_order_outcome(second, first, second_slot, first_slot, !first_wins_tie) == Ok::<TurnOrder, BattleError>(
            match turn_order_outcome(first, second, first_slot, second_slot, first_wins_tie) {
                Ok(TurnOrder::FirstPokemon) => TurnOrder::SecondPokemon,
                _ => TurnOrder::FirstPokemon,
            },
        ),
{
}

/// Orders a turn, breaking a full priority and Speed tie with `first_wins_speed_tie`.
pub fn order_turn(
    first: &Pokemon,
    second: &Pokemon,
    first_slot: usize,
    second_slot: usize,
    first_wins_speed_tie: bool,
) -> (r: Result<TurnOrder, BattleError>)
    ensures
        r == turn_order_outcome(first, second, first_slot, second_slot, first_wins_speed_tie),
{
    validate_move_index(first, first_slot)?;
    validate_move_index(second, second_slot)?;
    let p1 = first.moves[first_slot].priority;
    let p2 = second.moves[second_slot].priority;
    let s1 = first.stats.speed;
    let s2 = second.stats.speed;
    if p1 > p2 || (p1 == p2 && s1 > s2) {
        Ok(TurnOrder::FirstPokemon)
    } else if p1 < p2 || (p1 == p2 && s1 < s2) {
        Ok(TurnOrder::SecondPokemon)
    } else if first_wins_speed_tie {
        Ok(TurnOrder::FirstPokemon)
    } else {
        Ok(TurnOrder::SecondPokemon)
    }
}

/// Orders a turn by move priority, then Speed; a full tie is decided at random.
pub fn determine_turn_order(first: &Pokemon, second: &Pokemon, first_slot: usize, second_slot: usize) -> (r:
    Result<TurnOrder, BattleError>)
    ensures
        exists|tie: bool| r == turn_order_outcome(first, second, first_slot, second_slot, tie),
{
    let tie = coin_flip();
    order_turn(first, second, first_slot, second_slot, tie)
}

/// The damage one attack deals and whether it was blocked, or the error that stops it.
pub open spec fn attack_outcome(
    attacker: &Pokemon,
    attacker_team: TeamState,
    defender: &Pokemon,
    defender_team: TeamState,
    move_index: usize,
    defender_is_protected: bool,
    roll: u8,
) -> Result<(DamageResult, bool), ActionError> {
    if attacker_team.spec_slot_active() is None {
        Err(ActionError::Battle(BattleError::FaintedPokemonCannotAttack))
    } else if move_index >= 4 {
        Err(ActionError::Battle(BattleError::InvalidMoveIndex { index: move_index }))
    } else {
        let selected_move = attacker.moves[move_index as int];
        if defender_team.spec_slot_active() is None || (defender_is_protected && selected_move.power > 0) {
            Ok((DamageResult { damage: 0, effectiveness: Fraction { numerator: 1, denominator: 1 } }, true))
        } else {
            match damage_outcome(attacker, defender, &selected_move, roll) {
                Ok(d) => Ok((d, false)),
                Err(e) => Err(ActionError::Battle(e)),
            }
        }
    }
}

/// The defending team after an attack: only an attack that lands changes it.
pub open spec fn team_after_attack(defender_team: TeamState, outcome: Result<(DamageResult, bool), ActionError>) -> TeamState {
    match outcome {
        Ok((d, false)) => defender_team.damaged(d.damage as u32),
        _ => defender_team,
    }
}

/// The HP of the Pokemon that was the target, after the attack; 0 when there was no target.
pub open spec fn target_hp_after(before: TeamState, after: TeamState) -> u32 {
    match before.spec_slot_active() {
        Some(slot) => after.hp_of(slot as int),
        None => 0,
    }
}

/// An attack report names the two Pokemon and the move, and carries what the attack did.
pub open spec fn reports(
    result: Attackresult,
    attacker: &Pokemon,
    defender: &Pokemon,
    move_index: usize,
    d: DamageResult,
    blocked: bool,
    hp_after: u32,
) -> bool {
    &&& result.attacker@ == attacker.entry.name@
    &&& result.defender@ == defender.entry.name@
    &&& result.move_name@ == attacker.moves[move_index as int].name@
    &&& result.damage == d.damage
    &&& result.effectiveness == d.effectiveness
    &&& result.blocked == blocked
    &&& result.defender_hp_after == hp_after
}

/// One attack with damage percentage `roll` took the defending team from `before` to
/// `after` and returned `r`.
pub open spec fn attack_done(
    attacker: &Pokemon,
    attacker_team: TeamState,
    defender: &Pokemon,
    before: TeamState,
    after: TeamState,
    move_index: usize,
    defender_is_protected: bool,
    roll: u8,
    r: Result<Attackresult, ActionError>,
) -> bool {
    let outcome = attack_outcome(attacker, attacker_team, defender, before, move_index, defender_is_protected, roll);
    &&& after == team_after_attack(before, outcome)
    &&& match outcome {
        Err(e) => r == Err::<Attackresult, ActionError>(e),
        Ok((d, blocked)) => r matches Ok(res) && reports(
            res,
            attacker,
            defender,
            move_index,
            d,
            blocked,
            target_hp_after(before, after),
        ),
    }
}

/// Executes one attack with a given damage percentage.
pub fn execute_move_with_roll(
    attacker: &Pokemon,
    attacker_team: &TeamState,
    defender: &Pokemon,
    defender_team: &mut TeamState,
    move_index: usize,
    defender_is_protected: bool,
    roll: u8,
) -> (r: Result<Attackresult, ActionError>)
    ensures
        attack_done(attacker, *attacker_team, defender, *old(defender_team), *final(defender_team),
            move_index, defender_is_protected, roll, r),
{
    if attacker_team.slot_active().is_none() {
        return Err(ActionError::Battle(BattleError::FaintedPokemonCannotAttack));
    }
    if move_index >= 4 {
        return Err(ActionError::Battle(BattleError::InvalidMoveIndex { index: move_index }));
    }
    let selected_move = &attacker.moves[move_index];
    let target = defender_team.slot_active();
    let blocked = target.is_none() || (defender_is_protected && selected_move.power > 0);
    let result = if blocked {
        DamageResult { damage: 0, effectiveness: Fraction::one() }
    } else {
        let result = match calculate_damage_with_roll(attacker, defender, selected_move, roll) {
            Ok(d) => d,
            Err(e) => return Err(ActionError::Battle(e)),
        };
        match defender_team.damage_active(result.damage as u32) {
            Ok(()) => {},
            Err(e) => return Err(ActionError::InvalidState(e)),
        }
        result
    };
    let hp_after = match target {
        Some(slot) => defender_team.roster()[slot].hp_curr(),
        None => 0,
    };
    Ok(Attackresult {
        attacker: attacker.entry.name.to_owned(),
        defender: defender.entry.name.to_owned(),
        move_name: selected_move.name.clone(),
        damage: result.damage,
        effectiveness: result.effectiveness,
        blocked,
        defender_hp_after: hp_after,
    })
}

/// Executes one attack; the damage percentage is drawn at random in 85..=100.
pub fn execute_move(
    attacker: &Pokemon,
    attacker_team: &TeamState,
    defender: &Pokemon,
    defender_team: &mut TeamState,
    move_index: usize,
    defender_is_protected: bool,
) -> (r: Result<Attackresult, ActionError>)
    ensures
        exists|roll: u8|
            MIN_DAMAGE_PERCENT <= roll <= MAX_DAMAGE_PERCENT && #[trigger] attack_done(attacker, *attacker_team, defender,
                *old(defender_team), *final(defender_team), move_index, defender_is_protected, roll, r),
{
    let roll = thread_roll(MIN_DAMAGE_PERCENT, MAX_DAMAGE_PERCENT);
    execute_move_with_roll(attacker, attacker_team, defender, defender_team, move_index, defender_is_protected, roll)
}

/// Two attacks in order: the faster Pokemon attacks; if the slower one is still standing it
/// attacks back, blocked by Protect or Detect if the faster one used it. Takes the two teams
/// from the `before` states to the `after` states and returns `r`.
pub open spec fn exchange_done(
    fast: &Pokemon,
    fast_before: TeamState,
    fast_after: TeamState,
    slow: &Pokemon,
    slow_before: TeamState,
    slow_after: TeamState,
    fast_move: usize,
    slow_move: usize,
    rolls: TurnRolls,
    r: Result<Turnresult, ActionError>,
) -> bool {
    let o1 = attack_outcome(fast, fast_before, slow, slow_before, fast_move, false, rolls.first_roll);
    let slow_mid = team_after_attack(slow_before, o1);
    match o1 {
        Err(e) => r == Err::<Turnresult, ActionError>(e) && fast_after == fast_before && slow_after
            == slow_mid,
        Ok((d1, b1)) => {
            let first_ok = |t: Turnresult|
                reports(t.first, fast, slow, fast_move, d1, b1, target_hp_after(slow_before, slow_mid));
            if slow_mid.spec_slot_active() is None {
                &&& r matches Ok(t) && first_ok(t) && t.second is None
                &&& fast_after == fast_before
                &&& slow_after == slow_mid
            } else {
                let o2 = attack_outcome(
                    slow,
                    slow_mid,
                    fast,
                    fast_before,
                    slow_move,
                    protective(fast.moves[fast_move as int]),
                    rolls.second_roll,
                );
                let fast_mid = team_after_attack(fast_before, o2);
                &&& fast_after == fast_mid
                &&& slow_after == slow_mid
                &&& match o2 {
                    Err(e) => r == Err::<Turnresult, ActionError>(e),
                    Ok((d2, b2)) => r matches Ok(t) && first_ok(t) && (t.second matches Some(s)
                        && reports(s, slow, fast, slow_move, d2, b2, target_hp_after(fast_before, fast_mid))),
                }
            }
        },
    }
}

fn exchange(
    fast: &Pokemon,
    fast_team: &mut TeamState,
    slow: &Pokemon,
    slow_team: &mut TeamState,
    fast_move: usize,
    slow_move: usize,
    rolls: TurnRolls,
) -> (r: Result<Turnresult, ActionError>)
    requires
        fast_move < 4,
    ensures
        exchange_done(fast, *old(fast_team), *final(fast_team), slow, *old(slow_team), *final(slow_team),
            fast_move, slow_move, rolls, r),
{
    let first = execute_move_with_roll(fast, fast_team, slow, slow_team, fast_move, false, rolls.first_roll)?;
    if slow_team.slot_active().is_none() {
        return Ok(Turnresult { first, second: None });
    }
    let protected = is_protective_status_move(&fast.moves[fast_move]);
    let second = execute_move_with_roll(slow, slow_team, fast, fast_team, slow_move, protected, rolls.second_roll)?;
    Ok(Turnresult { first, second: Some(second) })
}

/// A full turn of two attacks, ordered by priority and Speed: takes the teams from the
/// `before` states to the `after` states and returns `r`.
pub open spec fn turn_done(
    first: &Pokemon,
    first_before: TeamState,
    first_after: TeamState,
    second: &Pokemon,
    second_before: TeamState,
    second_after: TeamState,
    first_move: usize,
    second_move: usize,
    rolls: TurnRolls,
    r: Result<Turnresult, ActionError>,
) -> bool {
    if first_before.spec_slot_active() is None || second_before.spec_slot_active() is None {
        &&& r == Err::<Turnresult, ActionError>(ActionError::Battle(BattleError::FaintedPokemonCannotBattle))
        &&& first_after == first_before
        &&& second_after == second_before
    } else {
        match turn_order_outcome(first, second, first_move, second_move, rolls.first_wins_speed_tie) {
            Err(e) => {
                &&& r == Err::<Turnresult, ActionError>(ActionError::Battle(e))
                &&& first_after == first_before
                &&& second_after == second_before
            },
            Ok(TurnOrder::FirstPokemon) => exchange_done(
                first,
                first_before,
                first_after,
                second,
                second_before,
                second_after,
                first_move,
                second_move,
                rolls,
                r,
            ),
            Ok(TurnOrder::SecondPokemon) => exchange_done(
                second,
                second_before,
                second_after,
                first,
                first_before,
                first_after,
                second_move,
                first_move,
                rolls,
                r,
            ),
        }
    }
}

/// Resolves a turn in which both Pokemon use a move, with the given random draws.
pub fn simulate_turn_with_rolls(
    first: &Pokemon,
    first_team: &mut TeamState,
    second: &Pokemon,
    second_team: &mut TeamState,
    first_move: usize,
    second_move: usize,
    rolls: TurnRolls,
) -> (r: Result<Turnresult, ActionError>)
    ensures
        turn_done(first, *old(first_team), *final(first_team), second, *old(second_team),
            *final(second_team), first_move, second_move, rolls, r),
{
    if first_team.slot_active().is_none() || second_team.slot_active().is_none() {
        return Err(ActionError::Battle(BattleError::FaintedPokemonCannotBattle));
    }
    let order = match order_turn(first, second, first_move, second_move, rolls.first_wins_speed_tie) {
        Ok(o) => o,
        Err(e) => return Err(ActionError::Battle(e)),
    };
    match order {
        TurnOrder::FirstPokemon => exchange(first, first_team, second, second_team, first_move, second_move, rolls),
        TurnOrder::SecondPokemon => exchange(second, second_team, first, first_team, second_move, first_move, rolls),
    }
}

/// Resolves a turn in which both Pokemon use a move; damage percentages and a Speed tie are
/// decided at random.
pub fn simulate_turn(
    first: &Pokemon,
    first_team: &mut TeamState,
    second: &Pokemon,
    second_team: &mut TeamState,
    first_move: usize,
    second_move: usize,
) -> (r: Result<Turnresult, ActionError>)
    ensures
        exists|rolls: TurnRolls|
            rolls.in_range() && #[trigger] turn_done(first, *old(first_team), *final(first_team), second,
                *old(second_team), *final(second_team), first_move, second_move, rolls, r),
{
    let rolls = draw_turn_rolls();
    simulate_turn_with_rolls(first, first_team, second, second_team, first_move, second_move, rolls)
}

/// Resolving the attacks of a turn on the candidate state of `Battle::play_turn`: takes the
/// state from `before` to `after` and returns `r`. Both sides need an active Pokemon; two
/// moves make a full turn, and a move against a switch is one attack on the incoming Pokemon.
pub open spec fn resolution_done(
    before: BattleState,
    after: BattleState,
    player_roster: &[Pokemon; 6],
    opponent_roster: &[Pokemon; 6],
    action: Action,
    opponent_action: Action,
    rolls: TurnRolls,
    r: Result<(), ActionError>,
) -> bool {
    match (before.player.spec_slot_active(), before.opponent.spec_slot_active()) {
        (Some(p), Some(o)) => {
            let player = &player_roster[p as int];
            let opponent = &opponent_roster[o as int];
            &&& after.terminated == before.terminated
            &&& match (action, opponent_action) {
                (Action::Move(a), Action::Move(b)) => exists|t: Result<Turnresult, ActionError>|
                    #[trigger] turn_done(player, before.player, after.player, opponent, before.opponent,
                        after.opponent, a, b, rolls, t) && r == (match t {
                        Ok(_) => Ok::<(), ActionError>(()),
                        Err(e) => Err(e),
                    }),
                (Action::Move(slot), Action::Switch(_)) => exists|t: Result<Attackresult, ActionError>|
                    #[trigger] attack_done(player, before.player, opponent, before.opponent, after.opponent,
                        slot, false, rolls.first_roll, t) && after.player == before.player && r == (match t {
                        Ok(_) => Ok::<(), ActionError>(()),
                        Err(e) => Err(e),
                    }),
                (Action::Switch(_), Action::Move(slot)) => exists|t: Result<Attackresult, ActionError>|
                    #[trigger] attack_done(opponent, before.opponent, player, before.player, after.player,
                        slot, false, rolls.first_roll, t) && after.opponent == before.opponent && r == (match t {
                        Ok(_) => Ok::<(), ActionError>(()),
                        Err(e) => Err(e),
                    }),
                _ => r == Err::<(), ActionError>(ActionError::WrongPhase) && after == before,
            }
        },
        _ => r == Err::<(), ActionError>(ActionError::InvalidState(StateError::InvalidActiveSlot)) && after
            == before,
    }
}

/// Resolves the attacks of a turn with the given random draws, using the calculation data
/// of the Pokemon in the active roster slots.
pub fn resolve_turn_with_rolls(
    state: &mut BattleState,
    player_roster: &[Pokemon; 6],
    opponent_roster: &[Pokemon; 6],
    action: Action,
    opponent_action: Action,
    rolls: TurnRolls,
) -> (r: Result<(), ActionError>)
    ensures
        resolution_done(*old(state), *final(state), player_roster, opponent_roster, action,
            opponent_action, rolls, r),
{
    let player_slot = match state.player.slot_active() {
        Some(s) => s,
        None => return Err(ActionError::InvalidState(StateError::InvalidActiveSlot)),
    };
    let opponent_slot = match state.opponent.slot_active() {
        Some(s) => s,
        None => return Err(ActionError::InvalidState(StateError::InvalidActiveSlot)),
    };
    let player = &player_roster[player_slot];
    let opponent = &opponent_roster[opponent_slot];
    let ghost before = *state;
    match (action, opponent_action) {
        (Action::Move(first), Action::Move(second)) => {
            let t = simulate_turn_with_rolls(player, &mut state.player, opponent, &mut state.opponent, first, second, rolls);
            assert(turn_done(player, before.player, state.player, opponent, before.opponent,
                        state.opponent, first, second, rolls, t));
            match t {
                Ok(_) => Ok(()),
                Err(e) => Err(e),
            }
        },
        (Action::Move(slot), Action::Switch(_)) => {
            let t = execute_move_with_roll(player, &state.player, opponent, &mut state.opponent, slot, false, rolls.first_roll);
            assert(attack_done(player, before.player, opponent, before.opponent, state.opponent,
                        slot, false, rolls.first_roll, t));
            match t {
                Ok(_) => Ok(()),
                Err(e) => Err(e),
            }
        },
        (Action::Switch(_), Action::Move(slot)) => {
            let t = execute_move_with_roll(opponent, &state.opponent, player, &mut state.player, slot, false, rolls.first_roll);
            assert(attack_done(opponent, before.opponent, player, before.player, state.player,
                        slot, false, rolls.first_roll, t));
            match t {
                Ok(_) => Ok(()),
                Err(e) => Err(e),
            }
        },
        _ => Err(ActionError::WrongPhase),
    }
}

/// Resolves the attacks of a turn on the candidate state of `Battle::play_turn`, with random
/// damage percentages and Speed ties. Actions are validated and switches applied before this
/// runs.
pub fn resolve_turn(
    state: &mut BattleState,
    player_roster: &[Pokemon; 6],
    opponent_roster: &[Pokemon; 6],
    action: Action,
    opponent_action: Action,
) -> (r: Result<(), ActionError>)
    ensures
        exists|rolls: TurnRolls|
            rolls.in_range() && #[trigger] resolution_done(*old(state), *final(state), player_roster,
                opponent_roster, action, opponent_action, rolls, r),
{
    let rolls = draw_turn_rolls();
    resolve_turn_with_rolls(state, player_roster, opponent_roster, action, opponent_action, rolls)
}

/// An attack changes nothing on the defending team but lowers its active Pokemon's HP.
pub proof fn lemma_attack_wears_down(
    attacker: &Pokemon,
    attacker_team: TeamState,
    defender: &Pokemon,
    before: TeamState,
    after: TeamState,
    move_index: usize,
    defender_is_protected: bool,
    roll: u8,
    r: Result<Attackresult, ActionError>,
)
    requires
        before.wf(),
        attack_done(attacker, attacker_team, defender, before, after, move_index, defender_is_protected, roll, r),
    ensures
        before.worn_down_to(after),
        after.wf(),
{
    let outcome = attack_outcome(attacker, attacker_team, defender, before, move_index, defender_is_protected, roll);
    if let Ok((d, false)) = outcome {
        before.lemma_damage_wears_down(d.damage as u32);
        before.lemma_damaged(d.damage as u32);
    }
}

proof fn lemma_exchange_wears_down(
    fast: &Pokemon,
    fast_before: TeamState,
    fast_after: TeamState,
    slow: &Pokemon,
    slow_before: TeamState,
    slow_after: TeamState,
    fast_move: usize,
    slow_move: usize,
    rolls: TurnRolls,
    r: Result<Turnresult, ActionError>,
)
    requires
        fast_before.wf(),
        slow_before.wf(),
        exchange_done(fast, fast_before, fast_after, slow, slow_before, slow_after, fast_move, slow_move, rolls, r),
    ensures
        fast_before.worn_down_to(fast_after),
        slow_before.worn_down_to(slow_after),
{
    let o1 = attack_outcome(fast, fast_before, slow, slow_before, fast_move, false, rolls.first_roll);
    let slow_mid = team_after_attack(slow_before, o1);
    if let Ok((d1, false)) = o1 {
        slow_before.lemma_damage_wears_down(d1.damage as u32);
        slow_before.lemma_damaged(d1.damage as u32);
    }
    if o1 is Ok && slow_mid.spec_slot_active() is Some {
        let o2 = attack_outcome(slow, slow_mid, fast, fast_before, slow_move,
            protective(fast.moves[fast_move as int]), rolls.second_roll);
        if let Ok((d2, false)) = o2 {
            fast_before.lemma_damage_wears_down(d2.damage as u32);
        }
    }
}

/// A turn of two attacks never restores HP: each team keeps its selection, its maximum HP
/// and its move availability, and no Pokemon ends the turn with more HP than it started with.
pub proof fn lemma_turn_wears_down(
    first: &Pokemon,
    first_before: TeamState,
    first_after: TeamState,
    second: &Pokemon,
    second_before: TeamState,
    second_after: TeamState,
    first_move: usize,
    second_move: usize,
    rolls: TurnRolls,
    r: Result<Turnresult, ActionError>,
)
    requires
        first_before.wf(),
        second_before.wf(),
        turn_done(first, first_before, first_after, second, second_before, second_after, first_move,
            second_move, rolls, r),
    ensures
        first_before.worn_down_to(first_after),
        second_before.worn_down_to(second_after),
{
    if first_before.spec_slot_active() is Some && second_before.spec_slot_active() is Some {
        match turn_order_outcome(first, second, first_move, second_move, rolls.first_wins_speed_tie) {
            Ok(TurnOrder::FirstPokemon) => lemma_exchange_wears_down(first, first_before, first_after, second,
                second_before, second_after, first_move, second_move, rolls, r),
            Ok(TurnOrder::SecondPokemon) => lemma_exchange_wears_down(second, second_before, second_after, first,
                first_before, first_after, second_move, first_move, rolls, r),
            Err(_) => {},
        }
    }
}

/// Resolving a turn never restores HP: both teams keep their selections, maximum HP and
/// move availability, no Pokemon gains HP, and whether the battle has ended is left as it was.
pub proof fn lemma_resolution_never_heals(
    before: BattleState,
    after: BattleState,
    player_roster: &[Pokemon; 6],
    opponent_roster: &[Pokemon; 6],
    action: Action,
    opponent_action: Action,
    rolls: TurnRolls,
    r: Result<(), ActionError>,
)
    requires
        before.player.wf(),
        before.opponent.wf(),
        resolution_done(before, after, player_roster, opponent_roster, action, opponent_action, rolls, r),
    ensures
        before.player.worn_down_to(after.player),
        before.opponent.worn_down_to(after.opponent),
        after.terminated == before.terminated,
{
    if let (Some(p), Some(o)) = (before.player.spec_slot_active(), before.opponent.spec_slot_active()) {
        let player = &player_roster[p as int];
        let opponent = &opponent_roster[o as int];
        match (action, opponent_action) {
            (Action::Move(a), Action::Move(b)) => {
                let t = choose|t: Result<Turnresult, ActionError>|
                    #[trigger] turn_done(player, before.player, after.player, opponent, before.opponent,
                        after.opponent, a, b, rolls, t) && r == (match t {
                        Ok(_) => Ok::<(), ActionError>(()),
                        Err(e) => Err(e),
                    });
                lemma_turn_wears_down(player, before.player, after.player, opponent, before.opponent,
                    after.opponent, a, b, rolls, t);
            },
            (Action::Move(slot), Action::Switch(_)) => {
                let t = choose|t: Result<Attackresult, ActionError>|
                    #[trigger] attack_done(player, before.player, opponent, before.opponent, after.opponent,
                        slot, false, rolls.first_roll, t) && after.player == before.player && r == (match t {
                        Ok(_) => Ok::<(), ActionError>(()),
                        Err(e) => Err(e),
                    });
                lemma_attack_wears_down(player, before.player, opponent, before.opponent, after.opponent,
                    slot, false, rolls.first_roll, t);
            },
            (Action::Switch(_), Action::Move(slot)) => {
                let t = choose|t: Result<Attackresult, ActionError>|
                    #[trigger] attack_done(opponent, before.opponent, player, before.player, after.player,
                        slot, false, rolls.first_roll, t) && after.opponent == before.opponent && r == (match t {
                        Ok(_) => Ok::<(), ActionError>(()),
                        Err(e) => Err(e),
                    });
                lemma_attack_wears_down(opponent, before.opponent, player, before.player, after.player,
                    slot, false, rolls.first_roll, t);
            },
            _ => {},
        }
    }
}

/// Two Pokemon with the same calculation data: they may differ only in current HP.
pub open spec fn same_calculation_data(p: Pokemon, q: Pokemon) -> bool {
    p == (Pokemon { current_hp: p.current_hp, ..q })
}

proof fn lemma_attack_ignores_roster_hp(
    attacker: &Pokemon,
    attacker2: &Pokemon,
    attacker_team: TeamState,
    defender: &Pokemon,
    defender2: &Pokemon,
    before: TeamState,
    after: TeamState,
    move_index: usize,
    defender_is_protected: bool,
    roll: u8,
    r: Result<Attackresult, ActionError>,
)
    requires
        same_calculation_data(*attacker, *attacker2),
        same_calculation_data(*defender, *defender2),
    ensures
        attack_outcome(attacker, attacker_team, defender, before, move_index, defender_is_protected, roll)
            == attack_outcome(attacker2, attacker_team, defender2, before, move_index, defender_is_protected, roll),
        attack_done(attacker, attacker_team, defender, before, after, move_index, defender_is_protected, roll, r)
            == attack_done(attacker2, attacker_team, defender2, before, after, move_index, defender_is_protected,
            roll, r),
{
}

proof fn lemma_turn_ignores_roster_hp(
    first: &Pokemon,
    first2: &Pokemon,
    first_before: TeamState,
    first_after: TeamState,
    second: &Pokemon,
    second2: &Pokemon,
    second_before: TeamState,
    second_after: TeamState,
    first_move: usize,
    second_move: usize,
    rolls: TurnRolls,
    r: Result<Turnresult, ActionError>,
)
    requires
        same_calculation_data(*first, *first2),
        same_calculation_data(*second, *second2),
    ensures
        turn_done(first, first_before, first_after, second, second_before, second_after, first_move, second_move,
            rolls, r) == turn_done(first2, first_before, first_after, second2, second_before, second_after,
            first_move, second_move, rolls, r),
{
    assert(turn_order_outcome(first, second, first_move, second_move, rolls.first_wins_speed_tie)
        == turn_order_outcome(first2, second2, first_move, second_move, rolls.first_wins_speed_tie));
    assert(exchange_done(first, first_before, first_after, second, second_before, second_after, first_move,
        second_move, rolls, r) == exchange_done(first2, first_before, first_after, second2, second_before,
        second_after, first_move, second_move, rolls, r)) by {
        lemma_attack_ignores_roster_hp(first, first2, first_before, second, second2, second_before, second_after,
            first_move, false, rolls.first_roll, Err(ActionError::WrongPhase));
    }
    assert(exchange_done(second, second_before, second_after, first, first_before, first_after, second_move,
        first_move, rolls, r) == exchange_done(second2, second_before, second_after, first2, first_before,
        first_after, second_move, first_move, rolls, r)) by {
        lemma_attack_ignores_roster_hp(second, second2, second_before, first, first2, first_before, first_after,
            second_move, false, rolls.first_roll, Err(ActionError::WrongPhase));
    }
}

/// Resolving a turn with rosters takes only calculation data from them: rosters that differ
/// only in the Pokemon's current HP resolve every turn in the same way, since HP, selection,
/// active slots and move availability come from the battle state.
pub proof fn lemma_resolution_ignores_roster_hp(
    before: BattleState,
    after: BattleState,
    player_roster: &[Pokemon; 6],
    opponent_roster: &[Pokemon; 6],
    player_roster2: &[Pokemon; 6],
    opponent_roster2: &[Pokemon; 6],
    action: Action,
    opponent_action: Action,
    rolls: TurnRolls,
    r: Result<(), ActionError>,
)
    requires
        before.player.wf(),
        before.opponent.wf(),
        forall|i: int| 0 <= i < 6 ==> same_calculation_data(#[trigger] player_roster[i], player_roster2[i]),
        forall|i: int| 0 <= i < 6 ==> same_calculation_data(#[trigger] opponent_roster[i], opponent_roster2[i]),
    ensures
        resolution_done(before, after, player_roster, opponent_roster, action, opponent_action, rolls, r)
            == resolution_done(before, after, player_roster2, opponent_roster2, action, opponent_action, rolls, r),
{
    if let (Some(p), Some(o)) = (before.player.spec_slot_active(), before.opponent.spec_slot_active()) {
        let player = &player_roster[p as int];
        let opponent = &opponent_roster[o as int];
        let player2 = &player_roster2[p as int];
        let opponent2 = &opponent_roster2[o as int];
        if 0 <= p < 6 && 0 <= o < 6 {
            assert(same_calculation_data(*player, *player2));
            assert(same_calculation_data(*opponent, *opponent2));
            let done = resolution_done(before, after, player_roster, opponent_roster, action, opponent_action, rolls, r);
            let done2 = resolution_done(before, after, player_roster2, opponent_roster2, action, opponent_action, rolls,
                r);
            let unit = |t: Result<Turnresult, ActionError>| match t {
                Ok(_) => Ok::<(), ActionError>(()),
                Err(e) => Err(e),
            };
            let unit1 = |t: Result<Attackresult, ActionError>| match t {
                Ok(_) => Ok::<(), ActionError>(()),
                Err(e) => Err(e),
            };
            match (action, opponent_action) {
                (Action::Move(a), Action::Move(b)) => {
                    let p1 = |t: Result<Turnresult, ActionError>| turn_done(player, before.player, after.player,
                        opponent, before.opponent, after.opponent, a, b, rolls, t) && r == unit(t);
                    let p2 = |t: Result<Turnresult, ActionError>| turn_done(player2, before.player, after.player,
                        opponent2, before.opponent, after.opponent, a, b, rolls, t) && r == unit(t);
                    if done {
                        let t = choose|t: Result<Turnresult, ActionError>|
                            #[trigger] turn_done(player, before.player, after.player, opponent, before.opponent,
                                after.opponent, a, b, rolls, t) && r == unit(t);
                        lemma_turn_ignores_roster_hp(player, player2, before.player, after.player, opponent,
                            opponent2, before.opponent, after.opponent, a, b, rolls, t);
                        assert(p2(t));
                    }
                    if done2 {
                        let t = choose|t: Result<Turnresult, ActionError>|
                            #[trigger] turn_done(player2, before.player, after.player, opponent2, before.opponent,
                                after.opponent, a, b, rolls, t) && r == unit(t);
                        lemma_turn_ignores_roster_hp(player, player2, before.player, after.player, opponent,
                            opponent2, before.opponent, after.opponent, a, b, rolls, t);
                        assert(p1(t));
                    }
                },
                (Action::Move(slot), Action::Switch(_)) => {
                    let p1 = |t: Result<Attackresult, ActionError>| attack_done(player, before.player, opponent,
                        before.opponent, after.opponent, slot, false, rolls.first_roll, t) && after.player
                        == before.player && r == unit1(t);
                    let p2 = |t: Result<Attackresult, ActionError>| attack_done(player2, before.player, opponent2,
                        before.opponent, after.opponent, slot, false, rolls.first_roll, t) && after.player
                        == before.player && r == unit1(t);
                    if done {
                        let t = choose|t: Result<Attackresult, ActionError>|
                            #[trigger] attack_done(player, before.player, opponent, before.opponent, after.opponent,
                                slot, false, rolls.first_roll, t) && after.player == before.player && r == unit1(t);
                        lemma_attack_ignores_roster_hp(player, player2, before.player, opponent, opponent2,
                            before.opponent, after.opponent, slot, false, rolls.first_roll, t);
                        assert(p2(t));
                    }
                    if done2 {
                        let t = choose|t: Result<Attackresult, ActionError>|
                            #[trigger] attack_done(player2, before.player, opponent2, before.opponent, after.opponent,
                                slot, false, rolls.first_roll, t) && after.player == before.player && r == unit1(t);
                        lemma_attack_ignores_roster_hp(player, player2, before.player, opponent, opponent2,
                            before.opponent, after.opponent, slot, false, rolls.first_roll, t);
                        assert(p1(t));
                    }
                },
                (Action::Switch(_), Action::Move(slot)) => {
                    let p1 = |t: Result<Attackresult, ActionError>| attack_done(opponent, before.opponent, player,
                        before.player, after.player, slot, false, rolls.first_roll, t) && after.opponent
                        == before.opponent && r == unit1(t);
                    let p2 = |t: Result<Attackresult, ActionError>| attack_done(opponent2, before.opponent, player2,
                        before.player, after.player, slot, false, rolls.first_roll, t) && after.opponent
                        == before.opponent && r == unit1(t);
                    if done {
                        let t = choose|t: Result<Attackresult, ActionError>|
                            #[trigger] attack_done(opponent, before.opponent, player, before.player, after.player,
                                slot, false, rolls.first_roll, t) && after.opponent == before.opponent && r == unit1(t);
                        lemma_attack_ignores_roster_hp(opponent, opponent2, before.opponent, player, player2,
                            before.player, after.player, slot, false, rolls.first_roll, t);
                        assert(p2(t));
                    }
                    if done2 {
                        let t = choose|t: Result<Attackresult, ActionError>|
                            #[trigger] attack_done(opponent2, before.opponent, player2, before.player, after.player,
                                slot, false, rolls.first_roll, t) && after.opponent == before.opponent && r == unit1(t);
                        lemma_attack_ignores_roster_hp(opponent, opponent2, before.opponent, player, player2,
                            before.player, after.player, slot, false, rolls.first_roll, t);
                        assert(p1(t));
                    }
                },
                _ => {},
            }
        }
    }
}

/// Whether two results both succeeded, or failed with the same error.
pub open spec fn same_outcome<T, U>(a: Result<T, ActionError>, b: Result<U, ActionError>) -> bool {
    match (a, b) {
        (Ok(_), Ok(_)) => true,
        (Err(x), Err(y)) => x == y,
        _ => false,
    }
}

proof fn lemma_attack_is_determined(
    attacker: &Pokemon,
    attacker_team: TeamState,
    defender: &Pokemon,
    before: TeamState,
    after1: TeamState,
    after2: TeamState,
    move_index: usize,
    defender_is_protected: bool,
    roll: u8,
    r1: Result<Attackresult, ActionError>,
    r2: Result<Attackresult, ActionError>,
)
    requires
        attack_done(attacker, attacker_team, defender, before, after1, move_index, defender_is_protected, roll, r1),
        attack_done(attacker, attacker_team, defender, before, after2, move_index, defender_is_protected, roll, r2),
    ensures
        after1 == after2,
        same_outcome(r1, r2),
{
}

proof fn lemma_turn_is_determined(
    first: &Pokemon,
    first_before: TeamState,
    first_after1: TeamState,
    first_after2: TeamState,
    second: &Pokemon,
    second_before: TeamState,
    second_after1: TeamState,
    second_after2: TeamState,
    first_move: usize,
    second_move: usize,
    rolls: TurnRolls,
    r1: Result<Turnresult, ActionError>,
    r2: Result<Turnresult, ActionError>,
)
    requires
        turn_done(first, first_before, first_after1, second, second_before, second_after1, first_move, second_move,
            rolls, r1),
        turn_done(first, first_before, first_after2, second, second_before, second_after2, first_move, second_move,
            rolls, r2),
    ensures
        first_after1 == first_after2,
        second_after1 == second_after2,
        same_outcome(r1, r2),
{
}

/// Resolving a turn is determined by the state, the rosters, the actions and the random
/// draws: the same inputs give the same state and the same result.
pub proof fn lemma_resolution_is_determined(
    before: BattleState,
    after1: BattleState,
    after2: BattleState,
    player_roster: &[Pokemon; 6],
    opponent_roster: &[Pokemon; 6],
    action: Action,
    opponent_action: Action,
    rolls: TurnRolls,
    r1: Result<(), ActionError>,
    r2: Result<(), ActionError>,
)
    requires
        resolution_done(before, after1, player_roster, opponent_roster, action, opponent_action, rolls, r1),
        resolution_done(before, after2, player_roster, opponent_roster, action, opponent_action, rolls, r2),
    ensures
        after1 == after2,
        r1 == r2,
{
    if let (Some(p), Some(o)) = (before.player.spec_slot_active(), before.opponent.spec_slot_active()) {
        let player = &player_roster[p as int];
        let opponent = &opponent_roster[o as int];
        let unit = |t: Result<Turnresult, ActionError>| match t {
            Ok(_) => Ok::<(), ActionError>(()),
            Err(e) => Err(e),
        };
        let unit1 = |t: Result<Attackresult, ActionError>| match t {
            Ok(_) => Ok::<(), ActionError>(()),
            Err(e) => Err(e),
        };
        match (action, opponent_action) {
            (Action::Move(a), Action::Move(b)) => {
                let t1 = choose|t: Result<Turnresult, ActionError>|
                    #[trigger] turn_done(player, before.player, after1.player, opponent, before.opponent,
                        after1.opponent, a, b, rolls, t) && r1 == unit(t);
                let t2 = choose|t: Result<Turnresult, ActionError>|
                    #[trigger] turn_done(player, before.player, after2.player, opponent, before.opponent,
                        after2.opponent, a, b, rolls, t) && r2 == unit(t);
                lemma_turn_is_determined(player, before.player, after1.player, after2.player, opponent,
                    before.opponent, after1.opponent, after2.opponent, a, b, rolls, t1, t2);
            },
            (Action::Move(slot), Action::Switch(_)) => {
                let t1 = choose|t: Result<Attackresult, ActionError>|
                    #[trigger] attack_done(player, before.player, opponent, before.opponent, after1.opponent, slot,
                        false, rolls.first_roll, t) && after1.player == before.player && r1 == unit1(t);
                let t2 = choose|t: Result<Attackresult, ActionError>|
                    #[trigger] attack_done(player, before.player, opponent, before.opponent, after2.opponent, slot,
                        false, rolls.first_roll, t) && after2.player == before.player && r2 == unit1(t);
                lemma_attack_is_determined(player, before.player, opponent, before.opponent, after1.opponent,
                    after2.opponent, slot, false, rolls.first_roll, t1, t2);
            },
            (Action::Switch(_), Action::Move(slot)) => {
                let t1 = choose|t: Result<Attackresult, ActionError>|
                    #[trigger] attack_done(opponent, before.opponent, player, before.player, after1.player, slot,
                        false, rolls.first_roll, t) && after1.opponent == before.opponent && r1 == unit1(t);
                let t2 = choose|t: Result<Attackresult, ActionError>|
                    #[trigger] attack_done(opponent, before.opponent, player, before.player, after2.player, slot,
                        false, rolls.first_roll, t) && after2.opponent == before.opponent && r2 == unit1(t);
                lemma_attack_is_determined(opponent, before.opponent, player, before.player, after1.player,
                    after2.player, slot, false, rolls.first_roll, t1, t2);
            },
            _ => {},
        }
    }
}

/// With equal random draws, rosters that differ only in their Pokemon's current HP resolve a
/// turn to equal results and equal states: roster HP does not flow into a turn.
pub proof fn lemma_equal_draws_ignore_roster_hp(
    before: BattleState,
    after1: BattleState,
    after2: BattleState,
    player_roster: &[Pokemon; 6],
    opponent_roster: &[Pokemon; 6],
    player_roster2: &[Pokemon; 6],
    opponent_roster2: &[Pokemon; 6],
    action: Action,
    opponent_action: Action,
    rolls: TurnRolls,
    r1: Result<(), ActionError>,
    r2: Result<(), ActionError>,
)
    requires
        before.player.wf(),
        before.opponent.wf(),
        forall|i: int| 0 <= i < 6 ==> same_calculation_data(#[trigger] player_roster[i], player_roster2[i]),
        forall|i: int| 0 <= i < 6 ==> same_calculation_data(#[trigger] opponent_roster[i], opponent_roster2[i]),
        resolution_done(before, after1, player_roster, opponent_roster, action, opponent_action, rolls, r1),
        resolution_done(before, after2, player_roster2, opponent_roster2, action, opponent_action, rolls, r2),
    ensures
        after1 == after2,
        r1 == r2,
{
    lemma_resolution_ignores_roster_hp(before, after2, player_roster, opponent_roster, player_roster2,
        opponent_roster2, action, opponent_action, rolls, r2);
    lemma_resolution_is_determined(before, after1, after2, player_roster, opponent_roster, action, opponent_action,
        rolls, r1, r2);
}

/// Protect and Detect: when the Pokemon that moves first uses one, a damaging move aimed at
/// it in the same turn changes nothing on its team.
pub proof fn lemma_protect_blocks_damage(
    first: &Pokemon,
    first_before: TeamState,
    first_after: TeamState,
    second: &Pokemon,
    second_before: TeamState,
    second_after: TeamState,
    first_move: usize,
    second_move: usize,
    rolls: TurnRolls,
    r: Result<Turnresult, ActionError>,
)
    requires
        turn_done(first, first_before, first_after, second, second_before, second_after, first_move,
            second_move, rolls, r),
    ensures
        turn_order_outcome(first, second, first_move, second_move, rolls.first_wins_speed_tie) == Ok::<
            TurnOrder,
            BattleError,
        >(TurnOrder::FirstPokemon) && protective(first.moves[first_move as int])
            && second.moves[second_move as int].power > 0 ==> first_after == first_before,
        turn_order_outcome(first, second, first_move, second_move, rolls.first_wins_speed_tie) == Ok::<
            TurnOrder,
            BattleError,
        >(TurnOrder::SecondPokemon) && protective(second.moves[second_move as int])
            && first.moves[first_move as int].power > 0 ==> second_after == second_before,
{
}

/// A Pokemon knocked out by the attack that comes first in a turn does not attack back.
pub proof fn lemma_knocked_out_pokemon_does_not_attack(
    first: &Pokemon,
    first_before: TeamState,
    first_after: TeamState,
    second: &Pokemon,
    second_before: TeamState,
    second_after: TeamState,
    first_move: usize,
    second_move: usize,
    rolls: TurnRolls,
    r: Result<Turnresult, ActionError>,
)
    requires
        turn_done(first, first_before, first_after, second, second_before, second_after, first_move,
            second_move, rolls, r),
    ensures
        turn_order_outcome(first, second, first_move, second_move, rolls.first_wins_speed_tie) == Ok::<
            TurnOrder,
            BattleError,
        >(TurnOrder::FirstPokemon) && second_after.spec_slot_active() is None ==> first_after == first_before
            && (r matches Ok(t) ==> t.second is None),
        turn_order_outcome(first, second, first_move, second_move, rolls.first_wins_speed_tie) == Ok::<
            TurnOrder,
            BattleError,
        >(TurnOrder::SecondPokemon) && first_after.spec_slot_active() is None ==> second_after == second_before
            && (r matches Ok(t) ==> t.second is None),
{
}

/// A battle that has ended refuses every further turn.
pub proof fn lemma_ended_battle_refuses_turns(state: BattleState, action: Action, opponent_action: Action)
    requires
        state.terminated,
    ensures
        turn_candidate(state, action, opponent_action) == Err::<BattleState, ActionError>(
            ActionError::BattleTerminated,
        ),
{
}

/// A battle turn with rosters and fixed random draws: took the battle state from `before` to
/// `after` and ended with `r`.
pub open spec fn rolled_turn_done(
    before: BattleState,
    after: BattleState,
    player_roster: &[Pokemon; 6],
    opponent_roster: &[Pokemon; 6],
    action: Action,
    opponent_action: Action,
    rolls: TurnRolls,
    r: Result<(), ActionError>,
) -> bool {
    match turn_candidate(before, action, opponent_action) {
        Err(e) => r == Err::<(), ActionError>(e) && after == before,
        Ok(candidate) => if !needs_resolution(before, action, opponent_action) {
            r == Ok::<(), ActionError>(()) && after == finished(candidate)
        } else {
            exists|mid: BattleState, res: Result<(), ActionError>|
                #[trigger] resolution_done(candidate, mid, player_roster, opponent_roster, action, opponent_action,
                    rolls, res) && match res {
                    Err(e) => r == Err::<(), ActionError>(e) && after == before,
                    Ok(()) => r == Ok::<(), ActionError>(()) && after == finished(mid),
                }
        },
    }
}

/// With equal random draws, a battle turn played with rosters that differ only in their
/// Pokemon's current HP gives equal results and leaves equal states.
pub proof fn lemma_equal_draws_give_equal_turns(
    before: BattleState,
    after1: BattleState,
    after2: BattleState,
    player_roster: &[Pokemon; 6],
    opponent_roster: &[Pokemon; 6],
    player_roster2: &[Pokemon; 6],
    opponent_roster2: &[Pokemon; 6],
    action: Action,
    opponent_action: Action,
    rolls: TurnRolls,
    r1: Result<(), ActionError>,
    r2: Result<(), ActionError>,
)
    requires
        before.player.wf(),
        before.opponent.wf(),
        forall|i: int| 0 <= i < 6 ==> same_calculation_data(#[trigger] player_roster[i], player_roster2[i]),
        forall|i: int| 0 <= i < 6 ==> same_calculation_data(#[trigger] opponent_roster[i], opponent_roster2[i]),
        rolled_turn_done(before, after1, player_roster, opponent_roster, action, opponent_action, rolls, r1),
        rolled_turn_done(before, after2, player_roster2, opponent_roster2, action, opponent_action, rolls, r2),
    ensures
        after1 == after2,
        r1 == r2,
{
    if let Ok(candidate) = turn_candidate(before, action, opponent_action) {
        if needs_resolution(before, action, opponent_action) {
            if let Action::Switch(slot) = action {
                before.player.lemma_switched(slot);
            }
            if let Action::Switch(slot) = opponent_action {
                before.opponent.lemma_switched(slot);
            }
            assert(candidate.player.wf() && candidate.opponent.wf());
            let (mid1, res1) = choose|mid: BattleState, res: Result<(), ActionError>|
                #[trigger] resolution_done(candidate, mid, player_roster, opponent_roster, action, opponent_action,
                    rolls, res) && match res {
                    Err(e) => r1 == Err::<(), ActionError>(e) && after1 == before,
                    Ok(()) => r1 == Ok::<(), ActionError>(()) && after1 == finished(mid),
                };
            let (mid2, res2) = choose|mid: BattleState, res: Result<(), ActionError>|
                #[trigger] resolution_done(candidate, mid, player_roster2, opponent_roster2, action,
                    opponent_action, rolls, res) && match res {
                    Err(e) => r2 == Err::<(), ActionError>(e) && after2 == before,
                    Ok(()) => r2 == Ok::<(), ActionError>(()) && after2 == finished(mid),
                };
            lemma_equal_draws_ignore_roster_hp(candidate, mid1, mid2, player_roster, opponent_roster,
                player_roster2, opponent_roster2, action, opponent_action, rolls, res1, res2);
        }
    }
}

/// A single battle that owns its state and delegates turn resolution.
#[derive(Clone, Copy, Debug, PartialEq, Eq)]
pub struct Battle {
    state: BattleState,
}

/// The candidate state of a turn before its attacks: the battle must still be running, both
/// actions must be valid, and switches are applied.
pub open spec fn turn_candidate(state: BattleState, action: Action, opponent_action: Action) -> Result<
    BattleState,
    ActionError,
> {
    if state.terminated {
        Err(ActionError::BattleTerminated)
    } else if team_action_check(state.player, action) is Err {
        Err(team_action_check(state.player, action)->Err_0)
    } else if team_action_check(state.opponent, opponent_action) is Err {
        Err(team_action_check(state.opponent, opponent_action)->Err_0)
    } else {
        Ok(
            BattleState {
                player: match action {
                    Action::Switch(slot) => state.player.switched(slot),
                    _ => state.player,
                },
                opponent: match opponent_action {
                    Action::Switch(slot) => state.opponent.switched(slot),
                    _ => state.opponent,
                },
                terminated: false,
            },
        )
    }
}

/// Attacks are resolved only when both sides had an active Pokemon at the start of the turn
/// and at least one side uses a move: a turn that replaces a fainted Pokemon resolves nothing.
pub open spec fn needs_resolution(state: BattleState, action: Action, opponent_action: Action) -> bool {
    &&& state.player.spec_slot_active() is Some
    &&& state.opponent.spec_slot_active() is Some
    &&& (action is Move || opponent_action is Move)
}

/// A state with its termination flag recomputed: the battle ends once either side has no
/// selected Pokemon left that can battle.
pub open spec fn finished(state: BattleState) -> BattleState {
    BattleState {
        terminated: !state.player.any_available() || !state.opponent.any_available(),
        ..state
    }
}

impl Battle {
    pub closed spec fn spec_state(self) -> BattleState {
        self.state
    }

    pub fn new(state: BattleState) -> (r: Self)
        ensures
            r.spec_state() == state,
    {
        Battle { state }
    }

    pub fn state(&self) -> (r: &BattleState)
        ensures
            *r == self.spec_state(),
    {
        &self.state
    }

    /// Plays a turn: validates both actions, applies switches, lets `resolve_turn` resolve the
    /// attacks when the turn has any, and recomputes whether the battle has ended. A failed
    /// turn leaves the state unchanged.
    pub fn play_turn<F: FnOnce(&mut BattleState, Action, Action) -> Result<(), ActionError>>(
        &mut self,
        player_action: Action,
        opponent_action: Action,
        resolve_turn: F,
    ) -> (r: Result<&BattleState, ActionError>)
        requires
            forall|s: &mut BattleState, a: Action, b: Action| call_requires(resolve_turn, (s, a, b)),
        ensures
            r matches Ok(s) ==> *s == final(self).spec_state(),
            match turn_candidate(old(self).spec_state(), player_action, opponent_action) {
                Err(e) => r == Err::<&BattleState, ActionError>(e) && *final(self) == *old(self),
                Ok(candidate) => if !needs_resolution(old(self).spec_state(), player_action, opponent_action) {
                    r is Ok && final(self).spec_state() == finished(candidate)
                } else {
                    exists|t: &mut BattleState, res: Result<(), ActionError>|
                        #[trigger] call_ensures(resolve_turn, (t, player_action, opponent_action), res)
                            && *t == candidate && match res {
                            Err(e) => r == Err::<&BattleState, ActionError>(e) && *final(self) == *old(self),
                            Ok(()) => r is Ok && final(self).spec_state() == finished(*final(t)),
                        }
                },
            },
    {
        if self.state.terminated {
            return Err(ActionError::BattleTerminated);
        }
        let replacement_pending = self.state.player.slot_active().is_none()
            || self.state.opponent.slot_active().is_none();
        let mut next = self.state;
        next.player.validate_action(player_action)?;
        next.opponent.validate_action(opponent_action)?;
        if let Action::Switch(slot) = player_action {
            match next.player.switch_to(slot) {
                Ok(()) => {},
                Err(_) => return Err(ActionError::InvalidSwitch),
            }
        }
        if let Action::Switch(slot) = opponent_action {
            match next.opponent.switch_to(slot) {
                Ok(()) => {},
                Err(_) => return Err(ActionError::InvalidSwitch),
            }
        }
        let any_move = match (player_action, opponent_action) {
            (Action::Move(_), _) => true,
            (_, Action::Move(_)) => true,
            _ => false,
        };
        if !replacement_pending && any_move {
            let res = resolve_turn(&mut next, player_action, opponent_action);
            match res {
                Ok(()) => {},
                Err(e) => return Err(e),
            }
        }
        next.terminated = !next.player.has_available_selected() || !next.opponent.has_available_selected();
        self.state = next;
        Ok(&self.state)
    }

    /// Plays a turn whose attacks are resolved with the calculation data of the Pokemon in the
    /// corresponding roster slots; HP, selection, active slots and move availability come from
    /// this battle's state. A failed turn leaves the state unchanged.
    pub fn play_turn_with_rosters(
        &mut self,
        player: &[Pokemon; 6],
        opponent: &[Pokemon; 6],
        player_action: Action,
        opponent_action: Action,
    ) -> (r: Result<&BattleState, ActionError>)
        ensures
            r matches Ok(s) ==> *s == final(self).spec_state(),
            match turn_candidate(old(self).spec_state(), player_action, opponent_action) {
                Err(e) => r == Err::<&BattleState, ActionError>(e) && *final(self) == *old(self),
                Ok(candidate) => if !needs_resolution(old(self).spec_state(), player_action, opponent_action) {
                    r is Ok && final(self).spec_state() == finished(candidate)
                } else {
                    exists|after: BattleState, res: Result<(), ActionError>, rolls: TurnRolls|
                        rolls.in_range() && #[trigger] resolution_done(candidate, after, player, opponent,
                            player_action, opponent_action, rolls, res) && match res {
                            Err(e) => r == Err::<&BattleState, ActionError>(e) && *final(self) == *old(self),
                            Ok(()) => r is Ok && final(self).spec_state() == finished(after),
                        }
                },
            },
    {
        let resolver = |state: &mut BattleState, action: Action, opponent_action: Action| -> (res: Result<(), ActionError>)
            ensures
                exists|rolls: TurnRolls|
                    rolls.in_range() && #[trigger] resolution_done(*old(state), *final(state), player, opponent,
                        action, opponent_action, rolls, res),
        {
            resolve_turn(state, player, opponent, action, opponent_action)
        };
        self.play_turn(player_action, opponent_action, resolver)
    }

    /// Plays a turn like `play_turn_with_rosters`, with the given random draws.
    pub fn play_turn_with_rosters_and_rolls(
        &mut self,
        player: &[Pokemon; 6],
        opponent: &[Pokemon; 6],
        player_action: Action,
        opponent_action: Action,
        rolls: TurnRolls,
    ) -> (r: Result<&BattleState, ActionError>)
        ensures
            r matches Ok(s) ==> *s == final(self).spec_state(),
            rolled_turn_done(old(self).spec_state(), final(self).spec_state(), player, opponent, player_action,
                opponent_action, rolls, match r {
                    Ok(_) => Ok::<(), ActionError>(()),
                    Err(e) => Err(e),
                }),
    {
        let resolver = |state: &mut BattleState, action: Action, opponent_action: Action| -> (res: Result<(), ActionError>)
            ensures
                resolution_done(*old(state), *final(state), player, opponent, action, opponent_action, rolls, res),
        {
            resolve_turn_with_rolls(state, player, opponent, action, opponent_action, rolls)
        };
        self.play_turn(player_action, opponent_action, resolver)
    }
}

} // verus!
