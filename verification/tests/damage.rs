use omniring::damage::{
    apply_random_percent, calculate_damage, calculate_damage_with_roll, DamageModifier, Fraction,
};
use omniring::info::{BattleError, Move, MoveCategory, Nature, Pokemon, PokemonType, StatPoints};
use omniring::pokedex::find_pokemon;

fn valid_stat_points() -> StatPoints {
    StatPoints {
        hp: 16,
        attack: 10,
        defense: 10,
        special_attack: 10,
        special_defense: 10,
        speed: 10,
    }
}

fn pokemon(species: &str) -> Pokemon {
    Pokemon::new(
        &find_pokemon(species).unwrap(),
        50,
        valid_stat_points(),
        Nature::Hardy,
        None,
        std::array::from_fn::<_, 4, _>(|_| {
            Move::new(
                "Test Move",
                PokemonType::Normal,
                MoveCategory::Status,
                0,
                None,
                0,
            )
        }),
    )
    .unwrap()
}

fn ratio(fraction: Fraction) -> f64 {
    fraction.numerator as f64 / fraction.denominator as f64
}

fn special(move_type: PokemonType, power: u16) -> Move {
    Move::new(
        "Test Move",
        move_type,
        MoveCategory::Special,
        power,
        Some(100),
        0,
    )
}

#[test]
fn damage_seeded_raw_random_roll_samples_percent_directly() {
    let first = DamageModifier::default()
        .with_raw_random_roll(Some(1))
        .unwrap()
        .random_percent;
    let second = DamageModifier::default()
        .with_raw_random_roll(Some(1))
        .unwrap()
        .random_percent;

    assert_eq!(first, second);
    assert_eq!(first, 98);
}

#[test]
fn damage_random_percent_truncates_fractional_damage() {
    assert_eq!(apply_random_percent(10, 85), 8);
    assert_eq!(apply_random_percent(3, 85), 2);
}

#[test]
fn battle_logic_random_percent_truncates_fractional_damage() {
    assert_eq!(apply_random_percent(10, 85), 8);
    assert_eq!(apply_random_percent(3, 85), 2);
}

#[test]
fn damage_damage_applies_stab_and_type_effectiveness() {
    let attacker = pokemon("Charizard");
    let cases = [
        ("neutral", PokemonType::Dragon, pokemon("Venusaur"), 38, 1.0),
        ("stab", PokemonType::Flying, pokemon("Gengar"), 70, 1.0),
        ("resisted", PokemonType::Fire, pokemon("Dragonite"), 28, 0.5),
        (
            "super-effective",
            PokemonType::Fire,
            pokemon("Venusaur"),
            114,
            2.0,
        ),
        (
            "dual-type",
            PokemonType::Ice,
            pokemon("Dragonite"),
            152,
            4.0,
        ),
        ("immune", PokemonType::Normal, pokemon("Gengar"), 0, 0.0),
    ];

    for (case, move_type, defender, expected_damage, expected_effectiveness) in cases {
        let selected_move = special(move_type, 80);

        let result = calculate_damage(&attacker, &defender, &selected_move, Some(1)).unwrap();
        assert_eq!(result.damage, expected_damage, "{case}");
        assert_eq!(ratio(result.effectiveness), expected_effectiveness, "{case}");
    }
}

#[test]
fn damage_non_immune_moves_deal_at_least_one_damage() {
    let attacker = pokemon("Venusaur");
    let defender = pokemon("Charizard");
    let selected_move = special(PokemonType::Grass, 1);

    let result = calculate_damage(&attacker, &defender, &selected_move, Some(1)).unwrap();
    assert_eq!(result.damage, 1);
    assert_eq!(ratio(result.effectiveness), 0.25);
}

#[test]
fn fixed_roll_damage_follows_the_formula() {
    let attacker = pokemon("Charizard");
    let defender = pokemon("Venusaur");
    let selected_move = special(PokemonType::Dragon, 80);

    let at_98 = calculate_damage_with_roll(&attacker, &defender, &selected_move, 98).unwrap();
    assert_eq!(at_98.damage, 38);
    let at_100 = calculate_damage_with_roll(&attacker, &defender, &selected_move, 100).unwrap();
    let at_85 = calculate_damage_with_roll(&attacker, &defender, &selected_move, 85).unwrap();
    assert!(at_85.damage <= at_98.damage && at_98.damage <= at_100.damage);
    assert_eq!(
        calculate_damage_with_roll(&attacker, &defender, &selected_move, 84),
        Err(BattleError::InvalidDamageRandomPercent { percent: 84 })
    );
    assert_eq!(
        calculate_damage_with_roll(&attacker, &defender, &selected_move, 101),
        Err(BattleError::InvalidDamageRandomPercent { percent: 101 })
    );
}

#[test]
fn status_moves_deal_no_damage() {
    let attacker = pokemon("Charizard");
    let defender = pokemon("Venusaur");
    let status = Move::new(
        "Test Move",
        PokemonType::Fire,
        MoveCategory::Status,
        0,
        None,
        0,
    );

    let result = calculate_damage(&attacker, &defender, &status, None).unwrap();
    assert_eq!(result.damage, 0);
    assert_eq!(ratio(result.effectiveness), 1.0);
}

#[test]
fn zero_defense_is_rejected() {
    let attacker = pokemon("Charizard");
    let mut defender = pokemon("Venusaur");
    defender.stats.special_defense = 0;

    assert_eq!(
        calculate_damage_with_roll(&attacker, &defender, &special(PokemonType::Fire, 80), 100),
        Err(BattleError::ZeroDefenseStat)
    );
}

#[test]
fn unseeded_rolls_stay_in_range() {
    for _ in 0..50 {
        let roll = DamageModifier::default()
            .with_raw_random_roll(None)
            .unwrap()
            .random_percent;
        assert!((85..=100).contains(&roll));
    }
}

#[test]
fn battle_modifiers_set_stab_and_effectiveness() {
    let attacker = pokemon("Charizard");
    let defender = pokemon("Venusaur");
    let mut modifiers = DamageModifier::default();
    modifiers.update_from_battle(&attacker, &defender, &special(PokemonType::Fire, 80));
    assert_eq!(modifiers.stab, Fraction::new(3, 2));
    assert_eq!(modifiers.type_effectiveness, Fraction::new(2, 1));
    assert_eq!(modifiers.random_percent, 100);
}
