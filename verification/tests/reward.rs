use omniring::reward::{all_selected_fainted, newly_fainted, selected_hp_pairs};
use omniring::{reward_terms, BattleState, PokemonState, TeamState};

fn team(hp: [u32; 3]) -> TeamState {
    TeamState::new(
        std::array::from_fn(|slot| {
            PokemonState::new(if slot < 3 { hp[slot] } else { 100 }, 100, [true; 4]).unwrap()
        }),
        [true, true, true, false, false, false],
        hp.iter().position(|&hp| hp > 0),
    )
    .unwrap()
}

fn mirrored(state: &BattleState) -> BattleState {
    BattleState {
        player: state.opponent,
        opponent: state.player,
        terminated: state.terminated,
    }
}

#[test]
fn winning_step_scores_outcome_and_faints() {
    let previous = BattleState {
        player: team([100, 100, 100]),
        opponent: team([10, 0, 0]),
        terminated: false,
    };
    let current = BattleState {
        player: team([80, 100, 100]),
        opponent: team([0, 0, 0]),
        terminated: true,
    };

    let terms = reward_terms(&previous, &current);
    assert!(terms.scored);
    assert_eq!(terms.outcome, 1);
    assert_eq!(terms.faint_progress, 1);
    assert_eq!(terms.previous_player, vec![(100, 100); 3]);
    assert_eq!(terms.current_player, vec![(80, 100), (100, 100), (100, 100)]);
    assert_eq!(terms.previous_opponent, vec![(10, 100), (0, 100), (0, 100)]);
    assert_eq!(terms.current_opponent, vec![(0, 100); 3]);
}

#[test]
fn reward_terms_are_zero_sum() {
    let previous = BattleState {
        player: team([100, 50, 100]),
        opponent: team([10, 100, 0]),
        terminated: false,
    };
    let current = BattleState {
        player: team([0, 50, 100]),
        opponent: team([0, 0, 0]),
        terminated: true,
    };

    let player = reward_terms(&previous, &current);
    let opponent = reward_terms(&mirrored(&previous), &mirrored(&current));
    assert_eq!(opponent.outcome, -player.outcome);
    assert_eq!(opponent.faint_progress, -player.faint_progress);
    assert_eq!(opponent.previous_player, player.previous_opponent);
    assert_eq!(opponent.current_opponent, player.current_player);
}

#[test]
fn unchanged_running_step_scores_nothing() {
    let state = BattleState {
        player: team([100, 20, 0]),
        opponent: team([30, 0, 100]),
        terminated: false,
    };

    let terms = reward_terms(&state, &state);
    assert!(terms.scored);
    assert_eq!(terms.outcome, 0);
    assert_eq!(terms.faint_progress, 0);
    assert_eq!(terms.previous_player, terms.current_player);
    assert_eq!(terms.previous_opponent, terms.current_opponent);
}

#[test]
fn steps_after_the_end_are_not_scored() {
    let state = BattleState {
        player: team([100, 100, 100]),
        opponent: team([0, 0, 0]),
        terminated: true,
    };

    let terms = reward_terms(&state, &state);
    assert!(!terms.scored);
    assert_eq!(terms.outcome, 0);
    assert_eq!(terms.faint_progress, 0);
}

#[test]
fn a_draw_has_no_outcome() {
    let previous = BattleState {
        player: team([5, 0, 0]),
        opponent: team([5, 0, 0]),
        terminated: false,
    };
    let current = BattleState {
        player: team([0, 0, 0]),
        opponent: team([0, 0, 0]),
        terminated: true,
    };

    let terms = reward_terms(&previous, &current);
    assert_eq!(terms.outcome, 0);
    assert_eq!(terms.faint_progress, 0);
}

#[test]
fn fainting_helpers_count_selected_slots_only() {
    let before = team([100, 100, 100]);
    let after = team([0, 0, 100]);
    assert_eq!(newly_fainted(&before, &after), 2);
    assert!(!all_selected_fainted(&after));
    assert!(all_selected_fainted(&team([0, 0, 0])));
    assert_eq!(selected_hp_pairs(&after), vec![(0, 100), (0, 100), (100, 100)]);
}
