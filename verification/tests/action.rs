use omniring::{
    Action, ActionError, BattleState, PokemonState, TeamPreviewObservation, TeamState,
};

fn roster(hp: u32) -> [PokemonState; 6] {
    std::array::from_fn(|_| PokemonState::new(hp, hp, [true; 4]).unwrap())
}

#[test]
fn exposes_and_validates_deterministic_actions_without_mutating_state() {
    let preview = TeamPreviewObservation {
        player: roster(100),
        opponent: roster(100),
    };
    let selections = preview.legal_player_actions();

    assert_eq!(selections.len(), 120);
    assert_eq!(selections.first(), Some(&Action::SelectTeam([0, 1, 2])));
    assert_eq!(selections.last(), Some(&Action::SelectTeam([5, 4, 3])));
    assert!(
        selections
            .iter()
            .all(|&action| preview.validate_player_action(action).is_ok())
    );
    assert_eq!(
        preview.validate_player_action(Action::SelectTeam([0, 0, 1])),
        Err(ActionError::InvalidTeamSelection)
    );
    assert_eq!(
        preview.validate_player_action(Action::SelectTeam([0, 1, 6])),
        Err(ActionError::InvalidTeamSelection)
    );
    assert_eq!(
        preview.validate_player_action(Action::Move(0)),
        Err(ActionError::WrongPhase)
    );

    let mut player_roster = roster(100);
    player_roster[0].move_availability = [true, false, true, false];
    player_roster[2] = PokemonState::new(0, 100, [true; 4]).unwrap();

    let state = BattleState {
        player: TeamState::new(
            player_roster,
            [true, true, true, false, false, false],
            Some(0),
        )
        .unwrap(),
        opponent: TeamState::new(
            roster(100),
            [true, true, true, false, false, false],
            Some(0),
        )
        .unwrap(),
        terminated: false,
    };
    let unchanged = state.clone();
    let actions = state.legal_player_actions();

    assert_eq!(
        actions,
        vec![Action::Move(0), Action::Move(2), Action::Switch(1)]
    );
    assert!(
        actions
            .iter()
            .all(|&action| state.validate_player_action(action).is_ok())
    );
    assert_eq!(
        state.validate_player_action(Action::Move(4)),
        Err(ActionError::UnavailableMove)
    );
    assert_eq!(
        state.validate_player_action(Action::Move(1)),
        Err(ActionError::UnavailableMove)
    );
    assert_eq!(
        state.validate_player_action(Action::Switch(0)),
        Err(ActionError::InvalidSwitch)
    );
    assert_eq!(
        state.validate_player_action(Action::Switch(2)),
        Err(ActionError::InvalidSwitch)
    );
    assert_eq!(
        state.validate_player_action(Action::SelectTeam([0, 1, 2])),
        Err(ActionError::WrongPhase)
    );
    assert_eq!(state, unchanged);

    let mut terminated = state.clone();
    terminated.terminated = true;
    assert!(terminated.legal_player_actions().is_empty());
    assert_eq!(
        terminated.validate_player_action(Action::Move(0)),
        Err(ActionError::BattleTerminated)
    );

    let replacement = BattleState {
        player: TeamState::new(roster(100), [true, true, true, false, false, false], None)
            .unwrap(),
        opponent: state.opponent.clone(),
        terminated: false,
    };
    let actions = replacement.legal_player_actions();

    assert_eq!(
        actions,
        vec![Action::Switch(0), Action::Switch(1), Action::Switch(2)]
    );
    assert!(
        actions
            .iter()
            .all(|&action| replacement.validate_player_action(action).is_ok())
    );
    assert_eq!(
        replacement.validate_player_action(Action::Move(0)),
        Err(ActionError::UnavailableMove)
    );
}

#[test]
fn preview_selections_are_distinct_and_lexicographic() {
    let preview = TeamPreviewObservation {
        player: roster(100),
        opponent: roster(100),
    };
    let selections = preview.legal_player_actions();
    let slots: Vec<[usize; 3]> = selections
        .iter()
        .map(|action| match action {
            Action::SelectTeam(slots) => *slots,
            _ => panic!("only selections are legal in preview"),
        })
        .collect();

    assert!(slots.windows(2).all(|pair| pair[0] < pair[1]));
    assert_eq!(slots[1], [0, 1, 3]);
    assert_eq!(slots[4], [0, 2, 1]);
    assert_eq!(
        preview.validate_player_action(Action::Switch(0)),
        Err(ActionError::WrongPhase)
    );
    assert_eq!(
        preview.validate_player_action(Action::SelectTeam([7, 1, 2])),
        Err(ActionError::InvalidTeamSelection)
    );
}

#[test]
fn legal_actions_match_validation_for_every_candidate() {
    let mut player_roster = roster(100);
    player_roster[1].move_availability = [false, true, false, true];
    player_roster[4] = PokemonState::new(0, 100, [true; 4]).unwrap();
    let state = BattleState {
        player: TeamState::new(player_roster, [false, true, false, true, true, false], Some(1))
            .unwrap(),
        opponent: TeamState::new(roster(50), [true, true, true, false, false, false], Some(2))
            .unwrap(),
        terminated: false,
    };
    let legal = state.legal_player_actions();
    assert_eq!(legal, vec![Action::Move(1), Action::Move(3), Action::Switch(3)]);

    for slot in 0..8 {
        for action in [Action::Move(slot), Action::Switch(slot)] {
            assert_eq!(
                legal.contains(&action),
                state.validate_player_action(action).is_ok()
            );
        }
    }
}

#[test]
fn selections_are_strictly_increasing_and_battle_actions_ordered() {
    let preview = TeamPreviewObservation {
        player: roster(100),
        opponent: roster(100),
    };
    let selections = preview.legal_player_actions();
    let keys: Vec<[usize; 3]> = selections
        .iter()
        .map(|action| match action {
            Action::SelectTeam(slots) => *slots,
            _ => panic!("only selections during preview"),
        })
        .collect();
    assert!(keys.windows(2).all(|pair| pair[0] < pair[1]));

    let state = BattleState {
        player: TeamState::new(roster(100), [false, true, false, true, true, false], Some(3)).unwrap(),
        opponent: TeamState::new(roster(100), [true, true, true, false, false, false], Some(0)).unwrap(),
        terminated: false,
    };
    assert_eq!(
        state.legal_player_actions(),
        vec![
            Action::Move(0),
            Action::Move(1),
            Action::Move(2),
            Action::Move(3),
            Action::Switch(1),
            Action::Switch(4),
        ]
    );
}
