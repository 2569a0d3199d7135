//! Actions, their validation, and the lists of legal actions.
use vstd::prelude::*;
use crate::info::BattleError;
use crate::state::{BattleState, StateError, TeamPreviewObservation, TeamState};

verus! {

/// An action available during team preview or a battle turn.
#[derive(Clone, Copy, Debug, PartialEq, Eq)]
pub enum Action {
    /// Three distinct roster slots in order, with the lead first.
    SelectTeam([usize; 3]),
    Move(usize),
    Switch(usize),
}

#[derive(Clone, Copy, Debug, PartialEq, Eq)]
pub enum ActionError {
    InvalidTeamSelection,
    UnavailableMove,
    InvalidSwitch,
    WrongPhase,
    BattleTerminated,
    Battle(BattleError),
    InvalidState(StateError),
}

/// Whether the team's active Pokemon can use the move in `slot`.
pub open spec fn move_available(team: TeamState, slot: int) -> bool {
    team.spec_slot_active() matches Some(a) && 0 <= slot < 4
        && team.spec_roster()[a as int].spec_moves()[slot]
}

/// Whether the team can switch its active Pokemon out for the one in `slot`.
pub open spec fn switch_available(team: TeamState, slot: int) -> bool {
    team.can_be_active(slot) && team.spec_slot_active() != Some(slot as usize)
}

/// The validation result of a battle action for one team.
pub open spec fn team_action_check(team: TeamState, action: Action) -> Result<(), ActionError> {
    match action {
        Action::Move(slot) => if move_available(team, slot as int) {
            Ok(())
        } else {
            Err(ActionError::UnavailableMove)
        },
        Action::Switch(slot) => if switch_available(team, slot as int) {
            Ok(())
        } else {
            Err(ActionError::InvalidSwitch)
        },
        Action::SelectTeam(_) => Err(ActionError::WrongPhase),
    }
}

/// The validation result of a player action in a battle.
pub open spec fn player_action_check(state: BattleState, action: Action) -> Result<(), ActionError> {
    if state.terminated {
        Err(ActionError::BattleTerminated)
    } else {
        team_action_check(state.player, action)
    }
}

/// `Move` actions for the available slots among the first `n` of a move mask, in slot order.
pub open spec fn move_actions(moves: [bool; 4], n: int) -> Seq<Action>
    decreases n,
{
    if n <= 0 {
        Seq::empty()
    } else {
        let earlier = move_actions(moves, n - 1);
        if moves[n - 1] {
            earlier.push(Action::Move((n - 1) as usize))
        } else {
            earlier
        }
    }
}

/// `Switch` actions for the available slots among the first `n` roster slots, in slot order.
pub open spec fn switch_actions(team: TeamState, n: int) -> Seq<Action>
    decreases n,
{
    if n <= 0 {
        Seq::empty()
    } else {
        let earlier = switch_actions(team, n - 1);
        if switch_available(team, n - 1) {
            earlier.push(Action::Switch((n - 1) as usize))
        } else {
            earlier
        }
    }
}

/// The player's legal battle actions: none once the battle is over; otherwise the active
/// Pokemon's available moves in slot order, then the possible switches in roster order.
pub open spec fn legal_actions(state: BattleState) -> Seq<Action> {
    if state.terminated {
        Seq::empty()
    } else {
        let moves = match state.player.spec_slot_active() {
            Some(a) => move_actions(state.player.spec_roster()[a as int].spec_moves(), 4),
            None => Seq::empty(),
        };
        moves + switch_actions(state.player, 6)
    }
}

proof fn lemma_move_actions(moves: [bool; 4], n: int, action: Action)
    requires
        0 <= n <= 4,
    ensures
        move_actions(moves, n).contains(action) <==> (action matches Action::Move(k) && k < n
            && moves[k as int]),
    decreases n,
{
    if n > 0 {
        lemma_move_actions(moves, n - 1, action);
        let earlier = move_actions(moves, n - 1);
        let x = Action::Move((n - 1) as usize);
        if moves[n - 1] {
            let p = earlier.push(x);
            assert(p.last() == x);
            if earlier.contains(action) {
                let i = choose|i: int| 0 <= i < earlier.len() && earlier[i] == action;
                assert(p[i] == action);
            }
            if p.contains(action) && action != x {
                let i = choose|i: int| 0 <= i < p.len() && p[i] == action;
                assert(i < earlier.len());
                assert(earlier[i] == action);
            }
        }
    }
}

proof fn lemma_switch_actions(team: TeamState, n: int, action: Action)
    requires
        0 <= n <= 6,
    ensures
        switch_actions(team, n).contains(action) <==> (action matches Action::Switch(k) && k < n
            && switch_available(team, k as int)),
    decreases n,
{
    if n > 0 {
        lemma_switch_actions(team, n - 1, action);
        let earlier = switch_actions(team, n - 1);
        let x = Action::Switch((n - 1) as usize);
        if switch_available(team, n - 1) {
            let p = earlier.push(x);
            assert(p.last() == x);
            if earlier.contains(action) {
                let i = choose|i: int| 0 <= i < earlier.len() && earlier[i] == action;
                assert(p[i] == action);
            }
            if p.contains(action) && action != x {
                let i = choose|i: int| 0 <= i < p.len() && p[i] == action;
                assert(i < earlier.len());
                assert(earlier[i] == action);
            }
        }
    }
}

/// The legal battle actions are exactly the actions that pass validation.
pub proof fn lemma_legal_actions_are_valid(state: BattleState, action: Action)
    ensures
        legal_actions(state).contains(action) <==> player_action_check(state, action) is Ok,
{
    if !state.terminated {
        let moves = match state.player.spec_slot_active() {
            Some(a) => move_actions(state.player.spec_roster()[a as int].spec_moves(), 4),
            None => Seq::<Action>::empty(),
        };
        let switches = switch_actions(state.player, 6);
        lemma_switch_actions(state.player, 6, action);
        if let Some(a) = state.player.spec_slot_active() {
            lemma_move_actions(state.player.spec_roster()[a as int].spec_moves(), 4, action);
        }
        if (moves + switches).contains(action) {
            let i = choose|i: int| 0 <= i < (moves + switches).len() && (moves + switches)[i] == action;
            if i < moves.len() {
                assert(moves[i] == action);
            } else {
                assert(switches[i - moves.len()] == action);
            }
        }
        if moves.contains(action) {
            let i = choose|i: int| 0 <= i < moves.len() && moves[i] == action;
            assert((moves + switches)[i] == action);
        }
        if switches.contains(action) {
            let i = choose|i: int| 0 <= i < switches.len() && switches[i] == action;
            assert((moves + switches)[moves.len() + i] == action);
        }
    }
}

impl TeamState {
    /// Validates a battle action for this team without changing it.
    pub fn validate_action(&self, action: Action) -> (r: Result<(), ActionError>)
        ensures
            r == team_action_check(*self, action),
    {
        match action {
            Action::Move(slot) => {
                match self.slot_active() {
                    Some(active) => {
                        if slot < 4 && self.roster()[active].available_moves()[slot] {
                            Ok(())
                        } else {
                            Err(ActionError::UnavailableMove)
                        }
                    },
                    None => Err(ActionError::UnavailableMove),
                }
            },
            Action::Switch(slot) => {
                let not_active = match self.slot_active() {
                    Some(active) => active != slot,
                    None => true,
                };
                if slot < 6 && self.selected()[slot] && not_active && self.roster()[slot].hp_curr() > 0 {
                    Ok(())
                } else {
                    Err(ActionError::InvalidSwitch)
                }
            },
            Action::SelectTeam(_) => Err(ActionError::WrongPhase),
        }
    }
}

impl BattleState {
    /// Returns player actions in stable move-slot, then roster-slot order.
    pub fn legal_player_actions(&self) -> (r: Vec<Action>)
        ensures
            r@ == legal_actions(*self),
    {
        let mut actions: Vec<Action> = Vec::new();
        if self.terminated {
            return actions;
        }
        match self.player.slot_active() {
            Some(active) => {
                let moves = self.player.roster()[active].available_moves();
                let mut slot: usize = 0;
                while slot < 4
                    invariant
                        0 <= slot <= 4,
                        actions@ == move_actions(moves, slot as int),
                    decreases 4 - slot,
                {
                    if moves[slot] {
                        actions.push(Action::Move(slot));
                    }
                    slot = slot + 1;
                }
            },
            None => {},
        }
        let ghost moves = actions@;
        let mut slot: usize = 0;
        while slot < 6
            invariant
                0 <= slot <= 6,
                actions@ == moves + switch_actions(self.player, slot as int),
            decreases 6 - slot,
        {
            let not_active = match self.player.slot_active() {
                Some(active) => active != slot,
                None => true,
            };
            if self.player.selected()[slot] && not_active && self.player.roster()[slot].hp_curr() > 0 {
                actions.push(Action::Switch(slot));
                assert(actions@ =~= moves + switch_actions(self.player, slot + 1));
            } else {
                assert(actions@ =~= moves + switch_actions(self.player, slot + 1));
            }
            slot = slot + 1;
        }
        actions
    }

    /// Validates a player action without changing the state.
    pub fn validate_player_action(&self, action: Action) -> (r: Result<(), ActionError>)
        ensures
            r == player_action_check(*self, action),
    {
        if self.terminated {
            return Err(ActionError::BattleTerminated);
        }
        self.player.validate_action(action)
    }
}

/// A team selection names three distinct roster slots.
pub open spec fn selection_valid(slots: [usize; 3]) -> bool {
    &&& slots[0] < 6 && slots[1] < 6 && slots[2] < 6
    &&& slots[0] != slots[1] && slots[0] != slots[2] && slots[1] != slots[2]
}

/// The validation result of an action during team preview.
pub open spec fn preview_action_check(action: Action) -> Result<(), ActionError> {
    match action {
        Action::SelectTeam(slots) => if selection_valid(slots) {
            Ok(())
        } else {
            Err(ActionError::InvalidTeamSelection)
        },
        _ => Err(ActionError::WrongPhase),
    }
}

/// Selections `[first, second, t]` for `t < n`, in increasing `t`, skipping repeated slots.
pub open spec fn selections_with_prefix(first: usize, second: usize, n: int) -> Seq<Action>
    decreases n,
{
    if n <= 0 {
        Seq::empty()
    } else {
        let earlier = selections_with_prefix(first, second, n - 1);
        let t = (n - 1) as usize;
        if first != second && first != t && second != t {
            earlier.push(Action::SelectTeam([first, second, t]))
        } else {
            earlier
        }
    }
}

/// Selections led by `first` whose second slot is below `n`, in lexicographic order.
pub open spec fn selections_with_lead(first: usize, n: int) -> Seq<Action>
    decreases n,
{
    if n <= 0 {
        Seq::empty()
    } else {
        selections_with_lead(first, n - 1) + selections_with_prefix(first, (n - 1) as usize, 6)
    }
}

/// Selections whose lead slot is below `n`, in lexicographic order.
pub open spec fn selections_led_below(n: int) -> Seq<Action>
    decreases n,
{
    if n <= 0 {
        Seq::empty()
    } else {
        selections_led_below(n - 1) + selections_with_lead((n - 1) as usize, 6)
    }
}

/// Every ordered selection of three distinct roster slots, in lexicographic order.
pub open spec fn team_selections() -> Seq<Action> {
    selections_led_below(6)
}

proof fn lemma_concat_contains(p: Seq<Action>, q: Seq<Action>, a: Action)
    ensures
        (p + q).contains(a) <==> p.contains(a) || q.contains(a),
{
    if (p + q).contains(a) {
        let i = choose|i: int| 0 <= i < (p + q).len() && (p + q)[i] == a;
        if i < p.len() {
            assert(p[i] == a);
        } else {
            assert(q[i - p.len()] == a);
        }
    }
    if p.contains(a) {
        let i = choose|i: int| 0 <= i < p.len() && p[i] == a;
        assert((p + q)[i] == a);
    }
    if q.contains(a) {
        let i = choose|i: int| 0 <= i < q.len() && q[i] == a;
        assert((p + q)[p.len() + i] == a);
    }
}

proof fn lemma_selections_with_prefix(first: usize, second: usize, n: int, a: Action)
    requires
        0 <= n <= 6,
    ensures
        selections_with_prefix(first, second, n).contains(a) <==> (a matches Action::SelectTeam(x)
            && x[0] == first && x[1] == second && x[2] < n && first != second && first != x[2]
            && second != x[2]),
        selections_with_prefix(first, second, n).len() == (if first == second {
            0
        } else {
            n - (if first < n {
                1int
            } else {
                0
            }) - (if second < n {
                1int
            } else {
                0
            })
        }),
    decreases n,
{
    if n > 0 {
        lemma_selections_with_prefix(first, second, n - 1, a);
        let earlier = selections_with_prefix(first, second, n - 1);
        let t = (n - 1) as usize;
        let x = Action::SelectTeam([first, second, t]);
        if first != second && first != t && second != t {
            let p = earlier.push(x);
            assert(p.last() == x);
            if earlier.contains(a) {
                let i = choose|i: int| 0 <= i < earlier.len() && earlier[i] == a;
                assert(p[i] == a);
            }
            if p.contains(a) && a != x {
                let i = choose|i: int| 0 <= i < p.len() && p[i] == a;
                assert(i < earlier.len());
                assert(earlier[i] == a);
            }
            if let Action::SelectTeam(y) = a {
                if y[0] == first && y[1] == second && y[2] == t {
                    assert(y =~= [first, second, t]);
                }
            }
        }
    }
}

proof fn lemma_selections_with_lead(first: usize, n: int, a: Action)
    requires
        0 <= n <= 6,
        first < 6,
    ensures
        selections_with_lead(first, n).contains(a) <==> (a matches Action::SelectTeam(x) && x[0]
            == first && x[1] < n && selection_valid(x)),
        selections_with_lead(first, n).len() == 4 * (n - (if first < n {
            1int
        } else {
            0
        })),
    decreases n,
{
    if n > 0 {
        lemma_selections_with_lead(first, n - 1, a);
        lemma_selections_with_prefix(first, (n - 1) as usize, 6, a);
        lemma_concat_contains(
            selections_with_lead(first, n - 1),
            selections_with_prefix(first, (n - 1) as usize, 6),
            a,
        );
    }
}

proof fn lemma_selections_led_below(n: int, a: Action)
    requires
        0 <= n <= 6,
    ensures
        selections_led_below(n).contains(a) <==> (a matches Action::SelectTeam(x) && x[0] < n
            && selection_valid(x)),
        selections_led_below(n).len() == 20 * n,
    decreases n,
{
    if n > 0 {
        lemma_selections_led_below(n - 1, a);
        lemma_selections_with_lead((n - 1) as usize, 6, a);
        lemma_concat_contains(selections_led_below(n - 1), selections_with_lead((n - 1) as usize, 6), a);
    }
}

/// During team preview there are 120 selections, and the legal preview actions are exactly
/// the actions that pass validation.
pub proof fn lemma_team_selections_are_valid(action: Action)
    ensures
        team_selections().len() == 120,
        team_selections().contains(action) <==> preview_action_check(action) is Ok,
{
    lemma_selections_led_below(6, action);
}

/// Whether `rank` strictly increases along `s`.
pub open spec fn strictly_ranked(s: Seq<Action>, rank: spec_fn(Action) -> int) -> bool {
    forall|i: int, j: int| 0 <= i < j < s.len() ==> rank(#[trigger] s[i]) < rank(#[trigger] s[j])
}

/// Whether every rank along `s` lies in `lo..hi`.
pub open spec fn ranks_within(s: Seq<Action>, rank: spec_fn(Action) -> int, lo: int, hi: int) -> bool {
    forall|i: int| 0 <= i < s.len() ==> lo <= rank(#[trigger] s[i]) < hi
}

/// The position of a battle action in the legal-action order: moves by slot, then switches
/// by roster slot.
pub open spec fn battle_action_rank(a: Action) -> int {
    match a {
        Action::Move(k) => k as int,
        Action::Switch(k) => 4 + k,
        Action::SelectTeam(_) => -1,
    }
}

/// The position of a selection in lexicographic order of slot triples (for slots below 6).
pub open spec fn selection_rank(a: Action) -> int {
    match a {
        Action::SelectTeam(x) => 36 * x[0] + 6 * x[1] + x[2],
        _ => -1,
    }
}

proof fn lemma_ranked_concat(p: Seq<Action>, q: Seq<Action>, rank: spec_fn(Action) -> int, lo: int, mid: int, hi: int)
    requires
        strictly_ranked(p, rank),
        strictly_ranked(q, rank),
        ranks_within(p, rank, lo, mid),
        ranks_within(q, rank, mid, hi),
        lo <= mid <= hi,
    ensures
        strictly_ranked(p + q, rank),
        ranks_within(p + q, rank, lo, hi),
{
    let s = p + q;
    assert forall|i: int, j: int| 0 <= i < j < s.len() implies rank(#[trigger] s[i]) < rank(#[trigger] s[j]) by {
        if j < p.len() {
            assert(s[i] == p[i] && s[j] == p[j]);
        } else if i >= p.len() {
            assert(s[i] == q[i - p.len()] && s[j] == q[j - p.len()]);
        } else {
            assert(s[i] == p[i] && s[j] == q[j - p.len()]);
        }
    }
    assert forall|i: int| 0 <= i < s.len() implies lo <= rank(#[trigger] s[i]) < hi by {
        if i < p.len() {
            assert(s[i] == p[i]);
        } else {
            assert(s[i] == q[i - p.len()]);
        }
    }
}

proof fn lemma_ranked_push(p: Seq<Action>, x: Action, rank: spec_fn(Action) -> int, lo: int, hi: int)
    requires
        strictly_ranked(p, rank),
        ranks_within(p, rank, lo, rank(x)),
        lo <= rank(x) < hi,
    ensures
        strictly_ranked(p.push(x), rank),
        ranks_within(p.push(x), rank, lo, hi),
{
    let s = p.push(x);
    assert forall|i: int, j: int| 0 <= i < j < s.len() implies rank(#[trigger] s[i]) < rank(#[trigger] s[j]) by {
        assert(s[i] == p[i]);
        if j < p.len() {
            assert(s[j] == p[j]);
        }
    }
    assert forall|i: int| 0 <= i < s.len() implies lo <= rank(#[trigger] s[i]) < hi by {
        if i < p.len() {
            assert(s[i] == p[i]);
        } else {
            assert(s[i] == x);
        }
    }
}

/// A ranked sequence has no repeated element.
proof fn lemma_ranked_no_duplicates(s: Seq<Action>, rank: spec_fn(Action) -> int)
    requires
        strictly_ranked(s, rank),
    ensures
        s.no_duplicates(),
{
    assert forall|i: int, j: int| 0 <= i < s.len() && 0 <= j < s.len() && i != j implies s[i] != s[j] by {
        if i < j {
            assert(rank(s[i]) < rank(s[j]));
        } else {
            assert(rank(s[j]) < rank(s[i]));
        }
    }
}

proof fn lemma_move_actions_ranked(moves: [bool; 4], n: int)
    requires
        0 <= n <= 4,
    ensures
        strictly_ranked(move_actions(moves, n), |a: Action| battle_action_rank(a)),
        ranks_within(move_actions(moves, n), |a: Action| battle_action_rank(a), 0, n),
        forall|i: int| 0 <= i < move_actions(moves, n).len() ==> #[trigger] move_actions(moves, n)[i] is Move,
    decreases n,
{
    if n > 0 {
        lemma_move_actions_ranked(moves, n - 1);
        let earlier = move_actions(moves, n - 1);
        if moves[n - 1] {
            let x = Action::Move((n - 1) as usize);
            lemma_ranked_push(earlier, x, |a: Action| battle_action_rank(a), 0, n);
            assert forall|i: int| 0 <= i < earlier.push(x).len() implies #[trigger] earlier.push(x)[i] is Move by {
                if i < earlier.len() {
                    assert(earlier.push(x)[i] == earlier[i]);
                }
            }
        }
    }
}

proof fn lemma_switch_actions_ranked(team: TeamState, n: int)
    requires
        0 <= n <= 6,
    ensures
        strictly_ranked(switch_actions(team, n), |a: Action| battle_action_rank(a)),
        ranks_within(switch_actions(team, n), |a: Action| battle_action_rank(a), 4, 4 + n),
        forall|i: int| 0 <= i < switch_actions(team, n).len() ==> #[trigger] switch_actions(team, n)[i] is Switch,
    decreases n,
{
    if n > 0 {
        lemma_switch_actions_ranked(team, n - 1);
        let earlier = switch_actions(team, n - 1);
        if switch_available(team, n - 1) {
            let x = Action::Switch((n - 1) as usize);
            lemma_ranked_push(earlier, x, |a: Action| battle_action_rank(a), 4, 4 + n);
            assert forall|i: int| 0 <= i < earlier.push(x).len() implies #[trigger] earlier.push(x)[i] is Switch by {
                if i < earlier.len() {
                    assert(earlier.push(x)[i] == earlier[i]);
                }
            }
        }
    }
}

/// The legal battle actions come in a fixed order without repeats: every move comes before
/// every switch, move slots increase, and switch slots increase.
pub proof fn lemma_legal_actions_ordered(state: BattleState)
    ensures
        strictly_ranked(legal_actions(state), |a: Action| battle_action_rank(a)),
        legal_actions(state).no_duplicates(),
        forall|i: int, j: int|
            0 <= i < j < legal_actions(state).len() && #[trigger] legal_actions(state)[j] is Move
                ==> #[trigger] legal_actions(state)[i] is Move,
        forall|i: int|
            0 <= i < legal_actions(state).len() ==> #[trigger] legal_actions(state)[i] is Move
                || legal_actions(state)[i] is Switch,
{
    let rank = |a: Action| battle_action_rank(a);
    if !state.terminated {
        let moves = match state.player.spec_slot_active() {
            Some(a) => move_actions(state.player.spec_roster()[a as int].spec_moves(), 4),
            None => Seq::empty(),
        };
        if let Some(a) = state.player.spec_slot_active() {
            lemma_move_actions_ranked(state.player.spec_roster()[a as int].spec_moves(), 4);
        }
        lemma_switch_actions_ranked(state.player, 6);
        let switches = switch_actions(state.player, 6);
        lemma_ranked_concat(moves, switches, rank, 0, 4, 10);
        let s = moves + switches;
        assert forall|i: int| 0 <= i < s.len() implies #[trigger] s[i] is Move || s[i] is Switch by {
            if i < moves.len() {
                assert(s[i] == moves[i]);
            } else {
                assert(s[i] == switches[i - moves.len()]);
            }
        }
        assert forall|i: int, j: int| 0 <= i < j < s.len() && #[trigger] s[j] is Move implies #[trigger] s[i] is Move by {
            if j < moves.len() {
                assert(s[i] == moves[i]);
            } else {
                assert(s[j] == switches[j - moves.len()]);
            }
        }
        lemma_ranked_no_duplicates(s, rank);
    }
}

proof fn lemma_selections_with_prefix_ranked(first: usize, second: usize, n: int)
    requires
        0 <= n <= 6,
        first < 6,
        second < 6,
    ensures
        strictly_ranked(selections_with_prefix(first, second, n), |a: Action| selection_rank(a)),
        ranks_within(selections_with_prefix(first, second, n), |a: Action| selection_rank(a), 36 * first + 6
            * second, 36 * first + 6 * second + n),
    decreases n,
{
    if n > 0 {
        lemma_selections_with_prefix_ranked(first, second, n - 1);
        let earlier = selections_with_prefix(first, second, n - 1);
        let t = (n - 1) as usize;
        if first != second && first != t && second != t {
            let x = Action::SelectTeam([first, second, t]);
            lemma_ranked_push(earlier, x, |a: Action| selection_rank(a), 36 * first + 6 * second, 36 * first + 6
                * second + n);
        }
    }
}

proof fn lemma_selections_with_lead_ranked(first: usize, n: int)
    requires
        0 <= n <= 6,
        first < 6,
    ensures
        strictly_ranked(selections_with_lead(first, n), |a: Action| selection_rank(a)),
        ranks_within(selections_with_lead(first, n), |a: Action| selection_rank(a), 36 * first, 36 * first + 6 * n),
    decreases n,
{
    if n > 0 {
        lemma_selections_with_lead_ranked(first, n - 1);
        lemma_selections_with_prefix_ranked(first, (n - 1) as usize, 6);
        lemma_ranked_concat(
            selections_with_lead(first, n - 1),
            selections_with_prefix(first, (n - 1) as usize, 6),
            |a: Action| selection_rank(a),
            36 * first,
            36 * first + 6 * (n - 1),
            36 * first + 6 * n,
        );
    }
}

proof fn lemma_selections_led_below_ranked(n: int)
    requires
        0 <= n <= 6,
    ensures
        strictly_ranked(selections_led_below(n), |a: Action| selection_rank(a)),
        ranks_within(selections_led_below(n), |a: Action| selection_rank(a), 0, 36 * n),
    decreases n,
{
    if n > 0 {
        lemma_selections_led_below_ranked(n - 1);
        lemma_selections_with_lead_ranked((n - 1) as usize, 6);
        lemma_ranked_concat(
            selections_led_below(n - 1),
            selections_with_lead((n - 1) as usize, 6),
            |a: Action| selection_rank(a),
            0,
            36 * (n - 1),
            36 * n,
        );
    }
}

/// The team selections are in strictly increasing lexicographic order of their slot triples,
/// so none repeats; the list does not depend on the rosters.
pub proof fn lemma_team_selections_ordered()
    ensures
        strictly_ranked(team_selections(), |a: Action| selection_rank(a)),
        team_selections().no_duplicates(),
        forall|i: int| 0 <= i < team_selections().len() ==> (#[trigger] team_selections()[i] matches Action::SelectTeam(x)
            && selection_valid(x)),
{
    lemma_selections_led_below_ranked(6);
    lemma_ranked_no_duplicates(team_selections(), |a: Action| selection_rank(a));
    assert forall|i: int| 0 <= i < team_selections().len() implies (#[trigger] team_selections()[i] matches Action::SelectTeam(x)
        && selection_valid(x)) by {
        let a = team_selections()[i];
        assert(team_selections().contains(a));
        lemma_team_selections_are_valid(a);
    }
}

impl TeamPreviewObservation {
    /// Returns all 120 ordered three-Pokemon selections lexicographically.
    pub fn legal_player_actions(&self) -> (r: Vec<Action>)
        ensures
            r@ == team_selections(),
    {
        let mut actions: Vec<Action> = Vec::new();
        let mut first: usize = 0;
        while first < 6
            invariant
                0 <= first <= 6,
                actions@ == selections_led_below(first as int),
            decreases 6 - first,
        {
            let ghost before = actions@;
            let mut second: usize = 0;
            while second < 6
                invariant
                    0 <= first < 6,
                    0 <= second <= 6,
                    before == selections_led_below(first as int),
                    actions@ == before + selections_with_lead(first, second as int),
                decreases 6 - second,
            {
                let ghost mid = actions@;
                let mut third: usize = 0;
                while third < 6
                    invariant
                        0 <= first < 6,
                        0 <= second < 6,
                        0 <= third <= 6,
                        mid == before + selections_with_lead(first, second as int),
                        actions@ == mid + selections_with_prefix(first, second, third as int),
                    decreases 6 - third,
                {
                    if first != second && first != third && second != third {
                        actions.push(Action::SelectTeam([first, second, third]));
                    }
                    assert(actions@ =~= mid + selections_with_prefix(first, second, third + 1));
                    third = third + 1;
                }
                assert(actions@ =~= before + selections_with_lead(first, second + 1));
                second = second + 1;
            }
            assert(actions@ =~= selections_led_below(first + 1));
            first = first + 1;
        }
        actions
    }

    /// Validates a team-preview action.
    pub fn validate_player_action(&self, action: Action) -> (r: Result<(), ActionError>)
        ensures
            r == preview_action_check(action),
    {
        match action {
            Action::SelectTeam(slots) => {
                if slots[0] < 6 && slots[1] < 6 && slots[2] < 6 && slots[0] != slots[1] && slots[0]
                    != slots[2] && slots[1] != slots[2] {
                    Ok(())
                } else {
                    Err(ActionError::InvalidTeamSelection)
                }
            },
            _ => Err(ActionError::WrongPhase),
        }
    }
}

} // verus!
