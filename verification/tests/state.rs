use omniring::{
    BattleObservation, BattleState, OpponentObservation, PokemonState, StateError,
    TeamPreviewObservation, TeamState,
};

fn roster(hp: u32) -> [PokemonState; 6] {
    std::array::from_fn(|_| PokemonState::new(hp, hp, [true; 4]).unwrap())
}

#[test]
fn represents_a_single_battle_without_revealing_the_opponent_selection() {
    let preview = TeamPreviewObservation {
        player: roster(100),
        opponent: roster(80),
    };
    let player = TeamState::new(
        preview.player.clone(),
        [true, true, true, false, false, false],
        Some(0),
    )
    .unwrap();
    let opponent = TeamState::new(
        preview.opponent.clone(),
        [false, true, false, true, false, true],
        Some(1),
    )
    .unwrap();
    let observation = BattleObservation {
        player: player.clone(),
        opponent: OpponentObservation::new(&opponent, [false, true, false, false, false, false])
            .unwrap(),
        terminated: false,
    };
    let state = BattleState {
        player,
        opponent,
        terminated: false,
    };

    assert_eq!(preview.player.len(), 6);
    assert_eq!(preview.opponent.len(), 6);
    assert_eq!(state.player.roster().len(), 6);
    assert_eq!(state.opponent.roster()[1].hp_curr(), 80);
    assert_eq!(observation.opponent.roster().len(), 6);
    assert_eq!(
        observation
            .opponent
            .selection_revealed()
            .iter()
            .filter(|&&slot| slot)
            .count(),
        1
    );
    assert_eq!(observation.opponent.slot_active(), Some(1));
    assert!(!state.terminated);
}

#[test]
fn rejects_invalid_team_state() {
    assert_eq!(
        TeamState::new(roster(100), [true; 6], None),
        Err(StateError::InvalidSelectionCount)
    );
    assert_eq!(
        TeamState::new(
            roster(100),
            [true, true, true, false, false, false],
            Some(5),
        ),
        Err(StateError::InvalidActiveSlot)
    );
    assert_eq!(
        TeamState::new(
            roster(100),
            [true, true, true, false, false, false],
            Some(6),
        ),
        Err(StateError::InvalidActiveSlot)
    );

    let mut fainted = roster(100);
    fainted[0] = PokemonState::new(0, 100, [true; 4]).unwrap();

    assert_eq!(
        TeamState::new(fainted, [true, true, true, false, false, false], Some(0),),
        Err(StateError::InvalidActiveSlot)
    );
}

#[test]
fn rejects_invalid_pokemon_state() {
    assert_eq!(
        PokemonState::new(101, 100, [true; 4]),
        Err(StateError::InvalidHp)
    );
    assert_eq!(
        PokemonState::new(0, 0, [true; 4]),
        Err(StateError::InvalidHp)
    );
}

#[test]
fn rejects_invalid_opponent_observation() {
    let team = TeamState::new(
        roster(100),
        [true, true, true, false, false, false],
        Some(0),
    )
    .unwrap();

    assert_eq!(
        OpponentObservation::new(&team, [false; 6]),
        Err(StateError::InvalidActiveSlot)
    );
    assert_eq!(
        OpponentObservation::new(&team, [true, false, false, true, false, false]),
        Err(StateError::InvalidRevealedSelection)
    );
}

#[test]
fn damage_floors_at_zero_and_clears_the_active_slot() {
    let mut team = TeamState::new(
        roster(100),
        [true, true, true, false, false, false],
        Some(2),
    )
    .unwrap();

    team.damage_active(30).unwrap();
    assert_eq!(team.roster()[2].hp_curr(), 70);
    assert_eq!(team.slot_active(), Some(2));
    assert_eq!(team.roster()[2].hp_max(), 100);

    team.damage_active(500).unwrap();
    assert_eq!(team.roster()[2].hp_curr(), 0);
    assert_eq!(team.slot_active(), None);
    assert_eq!(team.damage_active(1), Err(StateError::InvalidActiveSlot));
    assert!(team.has_available_selected());

    assert_eq!(team.switch_to(2), Err(StateError::InvalidActiveSlot));
    assert_eq!(team.switch_to(4), Err(StateError::InvalidActiveSlot));
    assert_eq!(team.switch_to(0), Ok(()));
    assert_eq!(team.slot_active(), Some(0));
}

#[test]
fn a_team_with_every_selected_pokemon_fainted_has_none_available() {
    let mut fainted = roster(100);
    for slot in [1, 3, 5] {
        fainted[slot] = PokemonState::new(0, 100, [true; 4]).unwrap();
    }
    let team = TeamState::new(fainted, [false, true, false, true, false, true], None).unwrap();
    assert!(!team.has_available_selected());
}
