use std::cell::Cell;

use omniring::{
    Action, ActionError, BattleState, Environment, Observation, PokemonState, RewardTerms,
    TeamPreviewObservation, TeamState,
};

const WIN_REWARD: f32 = 1.0;
const LOSS_REWARD: f32 = -1.0;
const FAINT_REWARD: f32 = 0.1;
const HP_PROGRESS_REWARD: f32 = 0.1;

fn normalized_hp(team: &[(u32, u32)]) -> f32 {
    team.iter()
        .map(|&(hp, max_hp)| hp as f32 / max_hp as f32)
        .sum::<f32>()
        / 3.0
}

fn reward_of(terms: &RewardTerms) -> f32 {
    if !terms.scored {
        return 0.0;
    }
    let outcome = match terms.outcome {
        1 => WIN_REWARD,
        -1 => LOSS_REWARD,
        _ => 0.0,
    };
    let hp_progress = normalized_hp(&terms.previous_opponent)
        - normalized_hp(&terms.current_opponent)
        - normalized_hp(&terms.previous_player)
        + normalized_hp(&terms.current_player);
    outcome + FAINT_REWARD * terms.faint_progress as f32 + HP_PROGRESS_REWARD * hp_progress
}

#[test]
fn runs_a_hidden_information_episode_from_preview_to_reset() {
    let preview = TeamPreviewObservation {
        player: roster(100),
        opponent: roster(100),
    };

    assert!(Environment::new(preview.clone(), [0, 0, 1], |_, _, _| Ok(())).is_err());

    let terminal = state([0; 3], true);
    let transitions = Cell::new(0);
    let mut environment =
        Environment::new(preview.clone(), [0, 1, 2], |state, player, opponent| {
            assert_eq!((player, opponent), (Action::Move(0), Action::Move(0)));
            transitions.set(transitions.get() + 1);
            *state = terminal.clone();
            Ok(())
        })
        .unwrap();

    assert_eq!(
        environment.reset(),
        Observation::TeamPreview(preview.clone())
    );
    assert_eq!(
        environment.step(Action::Move(0), Action::Move(0)),
        Err(ActionError::WrongPhase)
    );

    let selected = environment
        .step(Action::SelectTeam([0, 1, 2]), Action::Move(0))
        .unwrap();

    assert_eq!(reward_of(&selected.reward), 0.0);
    assert!(!selected.terminated);

    assert!(matches!(
        selected.observation,
        Observation::Battle(observation)
            if observation.opponent.selection_revealed()
                == &[true, false, false, false, false, false]
    ));
    assert_eq!(transitions.get(), 0);

    assert_eq!(
        environment.step(Action::Move(0), Action::Move(4)),
        Err(ActionError::UnavailableMove)
    );
    assert_eq!(transitions.get(), 0);

    let outcome = environment.step(Action::Move(0), Action::Move(0)).unwrap();

    assert!((reward_of(&outcome.reward) - 1.4).abs() < 1e-6);
    assert!(outcome.terminated);
    assert!(matches!(outcome.observation, Observation::Battle(_)));
    assert_eq!(transitions.get(), 1);
    assert_eq!(
        environment.step(Action::Move(0), Action::Move(0)),
        Err(ActionError::BattleTerminated)
    );
    assert_eq!(transitions.get(), 1);
    assert_eq!(
        environment.reset(),
        Observation::TeamPreview(preview.clone())
    );
}

#[test]
fn rolls_back_failed_transitions_and_observations() {
    let preview = TeamPreviewObservation {
        player: roster(100),
        opponent: roster(100),
    };
    let transitions = Cell::new(0);
    let mut environment = Environment::new(preview, [0, 1, 2], |state, _, _| {
        let turn = transitions.get();
        transitions.set(turn + 1);

        match turn {
            0 => {
                state.terminated = true;
                Err(ActionError::InvalidSwitch)
            }
            1 => {
                state.opponent = TeamState::new(
                    roster(100),
                    [false, true, true, true, false, false],
                    Some(1),
                )
                .unwrap();
                Ok(())
            }
            _ => Ok(()),
        }
    })
    .unwrap();

    let selected = environment
        .step(Action::SelectTeam([0, 1, 2]), Action::Move(0))
        .unwrap();
    assert_eq!(
        environment.step(Action::Move(0), Action::Move(0)),
        Err(ActionError::InvalidSwitch)
    );
    assert_eq!(
        environment.step(Action::Move(0), Action::Move(0)),
        Err(ActionError::InvalidTeamSelection)
    );

    let retried = environment.step(Action::Move(0), Action::Move(0)).unwrap();

    assert_eq!(retried.observation, selected.observation);
    assert_eq!(reward_of(&retried.reward), 0.0);
    assert!(!retried.terminated);
    assert_eq!(transitions.get(), 3);
}

#[test]
fn forced_replacements_do_not_consume_move_turns() {
    let preview = TeamPreviewObservation {
        player: roster(100),
        opponent: roster(100),
    };
    let transitions = Cell::new(0);
    let mut environment = Environment::new(preview, [0, 1, 2], |state, player, opponent| {
        if !matches!((player, opponent), (Action::Move(_), Action::Move(_))) {
            return Err(ActionError::WrongPhase);
        }

        transitions.set(transitions.get() + 1);
        state.opponent.damage_active(1_000).unwrap();
        Ok(())
    })
    .unwrap();

    environment
        .step(Action::SelectTeam([0, 1, 2]), Action::Move(0))
        .unwrap();

    let first_faint = environment.step(Action::Move(0), Action::Move(0)).unwrap();
    assert!(!first_faint.terminated);
    assert_eq!(transitions.get(), 1);

    let first_replacement = environment
        .step(Action::Move(0), Action::Switch(1))
        .unwrap();
    assert_eq!(reward_of(&first_replacement.reward), 0.0);
    assert!(!first_replacement.terminated);
    assert_eq!(transitions.get(), 1);

    let second_faint = environment.step(Action::Move(0), Action::Move(0)).unwrap();
    assert!(!second_faint.terminated);

    let second_replacement = environment
        .step(Action::Move(0), Action::Switch(2))
        .unwrap();
    assert_eq!(reward_of(&second_replacement.reward), 0.0);
    assert!(!second_replacement.terminated);
    assert_eq!(transitions.get(), 2);

    let final_faint = environment.step(Action::Move(0), Action::Move(0)).unwrap();
    assert!((reward_of(&final_faint.reward) - 1.133_333_3).abs() < 1e-6);
    assert!(final_faint.terminated);
    assert_eq!(transitions.get(), 3);
}

fn state(opponent_hp: [u32; 3], terminated: bool) -> BattleState {
    BattleState {
        player: team([100; 3]),
        opponent: team(opponent_hp),
        terminated,
    }
}

fn team(hp: [u32; 3]) -> TeamState {
    TeamState::new(
        std::array::from_fn(|slot| {
            PokemonState::new(if slot < 3 { hp[slot] } else { 100 }, 100, [true; 4]).unwrap()
        }),
        [true, true, true, false, false, false],
        hp.iter().position(|&hp| hp > 0),
    )
    .unwrap()
}

fn roster(hp: u32) -> [PokemonState; 6] {
    std::array::from_fn(|_| PokemonState::new(hp, hp, [true; 4]).unwrap())
}
