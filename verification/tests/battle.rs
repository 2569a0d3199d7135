use omniring::battle::{
    determine_turn_order, execute_move, execute_move_with_roll, order_turn, resolve_turn_with_rolls,
    simulate_turn, simulate_turn_with_rolls, Battle, TurnOrder, TurnRolls,
};
use omniring::damage::Fraction;
use omniring::info::{BattleError, Move, MoveCategory, Nature, Pokemon, PokemonType, StatPoints};
use omniring::pokedex::{build_pokemon_from_pokedex, find_pokemon};
use omniring::{Action, ActionError, BattleState, PokemonState, TeamState};

fn state() -> BattleState {
    BattleState {
        player: team([true; 4]),
        opponent: team([true, false, true, true]),
        terminated: false,
    }
}

fn team(move_availability: [bool; 4]) -> TeamState {
    TeamState::new(
        std::array::from_fn(|_| PokemonState::new(100, 100, move_availability).unwrap()),
        [true, true, true, false, false, false],
        Some(0),
    )
    .unwrap()
}

#[test]
fn failed_resolution_discards_all_runtime_mutations() {
    let initial = state();
    let mut battle = Battle::new(initial.clone());

    assert_eq!(
        battle.play_turn(Action::Switch(1), Action::Move(0), |next, _, _| {
            next.player.damage_active(25).unwrap();
            next.opponent = TeamState::new(
                team([false; 4]).roster().clone(),
                [false, true, true, true, false, false],
                Some(1),
            )
            .unwrap();
            next.terminated = true;
            Err(ActionError::InvalidSwitch)
        }),
        Err(ActionError::InvalidSwitch)
    );
    assert_eq!(battle.state(), &initial);
}

#[test]
fn validates_delegates_and_stops_after_termination() {
    let mut battle = Battle::new(state());

    assert_eq!(
        battle.play_turn(Action::Switch(0), Action::Move(0), |_, _, _| unreachable!()),
        Err(ActionError::InvalidSwitch)
    );
    assert_eq!(
        battle.play_turn(Action::Move(0), Action::Move(1), |_, _, _| unreachable!()),
        Err(ActionError::UnavailableMove)
    );
    assert_eq!(
        battle.play_turn(Action::Move(0), Action::Move(0), |_, _, _| Err(
            ActionError::InvalidSwitch
        )),
        Err(ActionError::InvalidSwitch)
    );

    let state = battle
        .play_turn(
            Action::Move(1),
            Action::Move(2),
            |state, player, opponent| {
                assert_eq!((player, opponent), (Action::Move(1), Action::Move(2)));

                state.opponent.damage_active(1_000).unwrap();
                state.opponent.switch_to(1).unwrap();
                state.opponent.damage_active(1_000).unwrap();
                state.opponent.switch_to(2).unwrap();
                state.opponent.damage_active(1_000).unwrap();
                Ok(())
            },
        )
        .unwrap();

    assert!(state.terminated);
    assert_eq!(
        battle.play_turn(Action::Move(0), Action::Move(0), |_, _, _| unreachable!()),
        Err(ActionError::BattleTerminated)
    );
}

#[test]
fn non_terminal_faint_requires_switch_before_moves_resume() {
    let mut battle = Battle::new(state());

    let state = battle
        .play_turn(Action::Move(0), Action::Move(0), |state, _, _| {
            state.player.damage_active(1_000).unwrap();
            Ok(())
        })
        .unwrap();
    assert_eq!(state.player.slot_active(), None);
    assert!(!state.terminated);
    assert_eq!(
        state.legal_player_actions(),
        vec![Action::Switch(1), Action::Switch(2)]
    );
    assert_eq!(
        battle.play_turn(Action::Move(0), Action::Move(0), |_, _, _| unreachable!()),
        Err(ActionError::UnavailableMove)
    );

    let state = battle
        .play_turn(Action::Switch(1), Action::Move(0), |_, _, _| {
            panic!("forced replacements do not resolve moves")
        })
        .unwrap();
    assert_eq!(state.player.slot_active(), Some(1));

    let state = battle
        .play_turn(Action::Move(0), Action::Move(0), |state, _, _| {
            state.opponent.damage_active(1).unwrap();
            Ok(())
        })
        .unwrap();
    assert_eq!(state.opponent.roster()[0].hp_curr(), 99);
}

#[test]
fn switch_only_turn_does_not_run_move_resolution() {
    let mut battle = Battle::new(state());

    let state = battle
        .play_turn(Action::Switch(1), Action::Switch(1), |_, _, _| {
            panic!("switch-only turns have no moves to resolve")
        })
        .unwrap();
    assert_eq!(state.player.slot_active(), Some(1));
    assert_eq!(state.opponent.slot_active(), Some(1));
}

#[test]
fn battle_ends_only_after_all_selected_opponents_faint() {
    let mut battle = Battle::new(state());

    let state = battle
        .play_turn(Action::Move(0), Action::Move(0), |state, _, _| {
            state.opponent.damage_active(1_000).unwrap();
            Ok(())
        })
        .unwrap();
    assert!(!state.terminated);

    let state = battle
        .play_turn(Action::Move(0), Action::Switch(1), |_, _, _| {
            panic!("forced replacements do not resolve moves")
        })
        .unwrap();
    assert!(!state.terminated);

    let state = battle
        .play_turn(Action::Move(0), Action::Move(0), |state, _, _| {
            state.opponent.damage_active(1_000).unwrap();
            Ok(())
        })
        .unwrap();
    assert!(!state.terminated);

    let state = battle
        .play_turn(Action::Move(0), Action::Switch(2), |_, _, _| {
            panic!("forced replacements do not resolve moves")
        })
        .unwrap();
    assert!(!state.terminated);

    let state = battle
        .play_turn(Action::Move(0), Action::Move(0), |state, _, _| {
            state.opponent.damage_active(1_000).unwrap();
            Ok(())
        })
        .unwrap();
    assert!(state.terminated);
    assert!(
        state.opponent.roster()[3..]
            .iter()
            .all(|pokemon| pokemon.hp_curr() > 0)
    );
    assert!(state.legal_player_actions().is_empty());
}

fn pokemon_team(pokemon: &Pokemon) -> TeamState {
    TeamState::new(
        std::array::from_fn(|_| {
            PokemonState::new(
                u32::from(pokemon.current_hp),
                u32::from(pokemon.stats.hp),
                std::array::from_fn(|slot| slot < pokemon.moves.len()),
            )
            .unwrap()
        }),
        [true, true, true, false, false, false],
        (pokemon.current_hp > 0).then_some(0),
    )
    .unwrap()
}

fn valid_stat_points() -> StatPoints {
    StatPoints {
        hp: 16,
        attack: 10,
        defense: 10,
        special_attack: 10,
        special_defense: 10,
        speed: 10,
    }
}

fn charizard() -> Pokemon {
    build_pokemon_from_pokedex(
        "Charizard",
        50,
        valid_stat_points(),
        Nature::Hardy,
        ["Flamethrower", "Air Slash", "Dragon Claw", "Protect"],
    )
    .unwrap()
}

fn venusaur() -> Pokemon {
    build_pokemon_from_pokedex(
        "Venusaur",
        50,
        valid_stat_points(),
        Nature::Hardy,
        ["Vine Whip", "Razor Leaf", "Sleep Powder", "Seed Bomb"],
    )
    .unwrap()
}

fn dragonite() -> Pokemon {
    let mut dragonite = build_pokemon_from_pokedex(
        "Dragonite",
        50,
        valid_stat_points(),
        Nature::Hardy,
        ["Extreme Speed", "Fire Punch", "Thunder Punch", "Hurricane"],
    )
    .unwrap();
    // Dragon Tail is not in the move data, so the fourth slot carries its battle data directly.
    dragonite.moves[3] = Move::new(
        "Dragon Tail",
        PokemonType::Dragon,
        MoveCategory::Physical,
        60,
        Some(90),
        -6,
    );
    dragonite
}

#[test]
fn battle_priority_move_can_attack_before_faster_pokemon() {
    let slower = dragonite();
    let faster = charizard();

    let order = determine_turn_order(&slower, &faster, 0, 0).unwrap();
    let result = simulate_turn(
        &slower,
        &mut pokemon_team(&slower),
        &faster,
        &mut pokemon_team(&faster),
        0,
        0,
    )
    .unwrap();
    assert_eq!(order, TurnOrder::FirstPokemon);
    assert_eq!(result.first.attacker, "Dragonite");
}

#[test]
fn battle_higher_priority_move_faster() {
    let slower = dragonite();
    let faster = charizard();

    let order = determine_turn_order(&slower, &faster, 0, 3).unwrap();
    let result = simulate_turn(
        &slower,
        &mut pokemon_team(&slower),
        &faster,
        &mut pokemon_team(&faster),
        0,
        3,
    )
    .unwrap();
    assert_eq!(order, TurnOrder::SecondPokemon);
    assert_eq!(result.first.attacker, "Charizard");
}

#[test]
fn battle_lower_priority_move_slower() {
    let slower = venusaur();
    let faster = dragonite();

    let order = determine_turn_order(&slower, &faster, 0, 3).unwrap();
    let result = simulate_turn(
        &slower,
        &mut pokemon_team(&slower),
        &faster,
        &mut pokemon_team(&faster),
        0,
        3,
    )
    .unwrap();
    assert_eq!(order, TurnOrder::FirstPokemon);
    assert_eq!(result.first.attacker, "Venusaur");
}

fn pokemon(species: &str) -> Pokemon {
    Pokemon::new(
        &find_pokemon(species).unwrap(),
        50,
        valid_stat_points(),
        Nature::Hardy,
        None,
        std::array::from_fn::<_, 4, _>(|_| {
            Move::new(
                "Test Move",
                PokemonType::Normal,
                MoveCategory::Status,
                0,
                None,
                0,
            )
        }),
    )
    .unwrap()
}

fn ratio(fraction: Fraction) -> f64 {
    fraction.numerator as f64 / fraction.denominator as f64
}

#[test]
fn battle_immune_move_result_reports_zero_effectiveness() {
    let mut attacker = charizard();
    let defender = pokemon("Gengar");
    let hp_before = u32::from(defender.current_hp);

    attacker.moves[0] = Move::new(
        "Test Move",
        PokemonType::Normal,
        MoveCategory::Special,
        80,
        Some(100),
        0,
    );

    let result = execute_move(
        &attacker,
        &pokemon_team(&attacker),
        &defender,
        &mut pokemon_team(&defender),
        0,
        false,
    )
    .unwrap();
    assert_eq!(result.damage, 0);
    assert_eq!(ratio(result.effectiveness), 0.0);
    assert_eq!(result.defender_hp_after, hp_before);
    assert!(!result.blocked);
}

#[test]
fn battle_faster_pokemon_attacks_first_and_fainting_stops_counterattack() {
    let attacker = charizard();
    let defender = venusaur();

    let mut defender_team = pokemon_team(&defender);
    defender_team
        .damage_active(u32::from(defender.current_hp) - 10)
        .unwrap();
    let result = simulate_turn(
        &attacker,
        &mut pokemon_team(&attacker),
        &defender,
        &mut defender_team,
        0,
        0,
    )
    .unwrap();
    assert_eq!(result.first.attacker, "Charizard");
    assert!(result.second.is_none());
}

#[test]
fn battle_second_input_can_act_first_when_it_is_faster() {
    let slower = venusaur();
    let faster = charizard();

    let result = simulate_turn(
        &slower,
        &mut pokemon_team(&slower),
        &faster,
        &mut pokemon_team(&faster),
        1,
        0,
    )
    .unwrap();
    assert_eq!(result.first.attacker, "Charizard");
}

#[test]
fn battle_invalid_move_index_returns_error() {
    let attacker = charizard();
    let defender = venusaur();

    let result = simulate_turn(
        &attacker,
        &mut pokemon_team(&attacker),
        &defender,
        &mut pokemon_team(&defender),
        4,
        0,
    );
    assert_eq!(
        result,
        Err(ActionError::Battle(BattleError::InvalidMoveIndex {
            index: 4
        }))
    );
}

#[test]
fn battle_turn_cannot_start_with_fainted_pokemon() {
    let attacker = charizard();
    let defender = venusaur();

    let mut attacker_team = pokemon_team(&attacker);
    attacker_team.damage_active(u32::MAX).unwrap();
    let result = simulate_turn(
        &attacker,
        &mut attacker_team,
        &defender,
        &mut pokemon_team(&defender),
        0,
        0,
    );
    assert_eq!(
        result,
        Err(ActionError::Battle(BattleError::FaintedPokemonCannotBattle))
    );
}

#[test]
fn battle_protect_blocks_the_second_damage_move() {
    let protector = charizard();
    let attacker = venusaur();
    let mut protector_team = pokemon_team(&protector);
    let result = simulate_turn(
        &protector,
        &mut protector_team,
        &attacker,
        &mut pokemon_team(&attacker),
        3,
        0,
    )
    .unwrap();
    assert_eq!(result.first.move_name, "Protect");
    assert_eq!(result.first.damage, 0);
    assert!(!result.first.blocked);

    let second = result.second.unwrap();
    assert_eq!(second.move_name, "Vine Whip");
    assert_eq!(second.damage, 0);
    assert!(second.blocked);
    assert_eq!(
        protector_team.roster()[0].hp_curr(),
        u32::from(protector.stats.hp)
    );
}

#[test]
fn battle_execute_move_to_fainted_defender_returns_blocked_result() {
    let attacker = charizard();
    let defender = venusaur();
    let mut defender_team = pokemon_team(&defender);
    defender_team.damage_active(u32::MAX).unwrap();
    let result = execute_move(
        &attacker,
        &pokemon_team(&attacker),
        &defender,
        &mut defender_team,
        0,
        false,
    )
    .unwrap();
    assert_eq!(result.damage, 0);
    assert!(result.blocked);
    assert_eq!(result.defender_hp_after, 0);
}

#[test]
fn priority_decides_order_before_speed() {
    let mut slower = venusaur();
    let faster = charizard();
    slower.moves[0].priority = 1;

    assert_eq!(
        determine_turn_order(&slower, &faster, 0, 0),
        Ok(TurnOrder::FirstPokemon)
    );
    assert_eq!(
        determine_turn_order(&slower, &faster, 1, 0),
        Ok(TurnOrder::SecondPokemon)
    );
    assert_eq!(
        determine_turn_order(&slower, &faster, 0, 4),
        Err(BattleError::InvalidMoveIndex { index: 4 })
    );
}

#[test]
fn speed_tie_goes_to_the_drawn_side() {
    let first = charizard();
    let second = charizard();

    assert_eq!(
        order_turn(&first, &second, 0, 0, true),
        Ok(TurnOrder::FirstPokemon)
    );
    assert_eq!(
        order_turn(&first, &second, 0, 0, false),
        Ok(TurnOrder::SecondPokemon)
    );
}

#[test]
fn fixed_roll_attack_deals_the_formula_damage() {
    let attacker = charizard();
    let defender = venusaur();
    let mut defender_team = pokemon_team(&defender);
    let hp_before = u32::from(defender.current_hp);

    let result = execute_move_with_roll(
        &attacker,
        &pokemon_team(&attacker),
        &defender,
        &mut defender_team,
        0,
        false,
        100,
    )
    .unwrap();
    assert!(result.damage > 0);
    assert_eq!(ratio(result.effectiveness), 2.0);
    assert_eq!(
        result.defender_hp_after,
        hp_before.saturating_sub(u32::from(result.damage))
    );
    assert_eq!(defender_team.roster()[0].hp_curr(), result.defender_hp_after);
}

#[test]
fn fainted_attacker_cannot_attack() {
    let attacker = charizard();
    let defender = venusaur();
    let mut attacker_team = pokemon_team(&attacker);
    attacker_team.damage_active(u32::MAX).unwrap();

    assert_eq!(
        execute_move_with_roll(
            &attacker,
            &attacker_team,
            &defender,
            &mut pokemon_team(&defender),
            0,
            false,
            100,
        ),
        Err(ActionError::Battle(BattleError::FaintedPokemonCannotAttack))
    );
}

#[test]
fn fixed_rolls_make_turns_repeatable() {
    let first = charizard();
    let second = venusaur();
    let rolls = TurnRolls {
        first_roll: 90,
        second_roll: 95,
        first_wins_speed_tie: true,
    };

    let mut a1 = pokemon_team(&first);
    let mut b1 = pokemon_team(&second);
    let mut a2 = pokemon_team(&first);
    let mut b2 = pokemon_team(&second);
    let one = simulate_turn_with_rolls(&first, &mut a1, &second, &mut b1, 0, 0, rolls);
    let two = simulate_turn_with_rolls(&first, &mut a2, &second, &mut b2, 0, 0, rolls);
    assert_eq!(one, two);
    assert_eq!(a1, a2);
    assert_eq!(b1, b2);
}

#[test]
fn resolution_against_a_switch_hits_the_incoming_pokemon() {
    let player: [Pokemon; 6] = std::array::from_fn(|_| charizard());
    let opponent: [Pokemon; 6] = std::array::from_fn(|_| venusaur());
    let mut state = BattleState {
        player: pokemon_team(&player[0]),
        opponent: pokemon_team(&opponent[0]),
        terminated: false,
    };
    state.opponent.switch_to(1).unwrap();
    let rolls = TurnRolls {
        first_roll: 100,
        second_roll: 100,
        first_wins_speed_tie: true,
    };

    resolve_turn_with_rolls(
        &mut state,
        &player,
        &opponent,
        Action::Move(0),
        Action::Switch(1),
        rolls,
    )
    .unwrap();
    assert!(state.opponent.roster()[1].hp_curr() < state.opponent.roster()[1].hp_max());
    assert_eq!(
        state.opponent.roster()[0].hp_curr(),
        state.opponent.roster()[0].hp_max()
    );
    assert_eq!(
        state.player.roster()[0].hp_curr(),
        state.player.roster()[0].hp_max()
    );
}

#[test]
fn roster_hp_does_not_change_a_resolved_turn() {
    let player: [Pokemon; 6] = std::array::from_fn(|_| charizard());
    let opponent: [Pokemon; 6] = std::array::from_fn(|_| venusaur());
    let player_low = player.clone().map(|mut pokemon| {
        pokemon.current_hp = 1;
        pokemon
    });
    let opponent_low = opponent.clone().map(|mut pokemon| {
        pokemon.current_hp = 0;
        pokemon
    });
    let start = BattleState {
        player: pokemon_team(&player[0]),
        opponent: pokemon_team(&opponent[0]),
        terminated: false,
    };
    let rolls = TurnRolls {
        first_roll: 92,
        second_roll: 88,
        first_wins_speed_tie: false,
    };

    let mut full = start;
    let mut low = start;
    let a = resolve_turn_with_rolls(&mut full, &player, &opponent, Action::Move(0), Action::Move(0), rolls);
    let b = resolve_turn_with_rolls(&mut low, &player_low, &opponent_low, Action::Move(0), Action::Move(0), rolls);
    assert_eq!(a, b);
    assert_eq!(full, low);
    assert!(full.opponent.roster()[0].hp_curr() < full.opponent.roster()[0].hp_max());
}

#[test]
fn equal_draws_give_equal_battle_turns_whatever_the_roster_hp() {
    let player: [Pokemon; 6] = std::array::from_fn(|_| charizard());
    let opponent: [Pokemon; 6] = std::array::from_fn(|_| venusaur());
    let player_low = player.clone().map(|mut pokemon| {
        pokemon.current_hp = 3;
        pokemon
    });
    let opponent_low = opponent.clone().map(|mut pokemon| {
        pokemon.current_hp = 0;
        pokemon
    });
    let start = BattleState {
        player: pokemon_team(&player[0]),
        opponent: pokemon_team(&opponent[0]),
        terminated: false,
    };
    let rolls = TurnRolls {
        first_roll: 85,
        second_roll: 100,
        first_wins_speed_tie: true,
    };

    let mut full = Battle::new(start);
    let mut low = Battle::new(start);
    let a = full
        .play_turn_with_rosters_and_rolls(&player, &opponent, Action::Move(0), Action::Move(0), rolls)
        .map(|state| *state);
    let b = low
        .play_turn_with_rosters_and_rolls(&player_low, &opponent_low, Action::Move(0), Action::Move(0), rolls)
        .map(|state| *state);
    assert_eq!(a, b);
    assert_eq!(full, low);
    assert!(full.state().opponent.roster()[0].hp_curr() < full.state().opponent.roster()[0].hp_max());
}
