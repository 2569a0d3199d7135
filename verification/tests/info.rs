use omniring::damage::Fraction;
use omniring::info::{
    calculate_level_stat, calculate_max_hp, calculate_stats, type_effectiveness,
    type_effectiveness_against, BattleError, BattleFormat, BattleMechanic, BattleMode,
    ChampionsRules, HeldItem, MegaStone, Move, MoveCategory, Nature, Pokemon, PokemonSpec,
    PokemonType, StatName, StatPoints, Stats,
};
use omniring::pokedex::find_pokemon;

fn tackle() -> Move {
    Move::new(
        "Tackle",
        PokemonType::Normal,
        MoveCategory::Physical,
        40,
        Some(100),
        0,
    )
}

fn ratio(fraction: Fraction) -> f64 {
    fraction.numerator as f64 / fraction.denominator as f64
}

#[test]
fn champions_singles_uses_mega_stones() {
    let rules = ChampionsRules::singles();

    assert_eq!(rules.format, BattleFormat::Singles);
    assert_eq!(rules.level_cap, 50);
    assert_eq!(rules.team_size, 6);
    assert_eq!(rules.selected_team_size, 3);
    assert!(rules.mega_stones_enabled);
}

#[test]
fn type_chart_handles_dual_type_multiplier() {
    let venusaur = Pokemon::new(
        &find_pokemon("Venusaur").unwrap(),
        50,
        StatPoints {
            hp: 32,
            attack: 32,
            defense: 2,
            special_attack: 0,
            special_defense: 0,
            speed: 0,
        },
        Nature::Hardy,
        None,
        [tackle(), tackle(), tackle(), tackle()],
    )
    .unwrap();

    assert_eq!(
        ratio(type_effectiveness_against(PokemonType::Fire, &venusaur)),
        2.0
    );
    assert_eq!(
        ratio(type_effectiveness_against(PokemonType::Grass, &venusaur)),
        0.25
    );
}

#[test]
fn info_rejects_invalid_champions_stat_points() {
    let invalid_points = StatPoints {
        hp: 33,
        attack: 33,
        defense: 0,
        special_attack: 0,
        special_defense: 0,
        speed: 0,
    };

    let result = Pokemon::new(
        &find_pokemon("Venusaur").unwrap(),
        50,
        invalid_points,
        Nature::Hardy,
        None,
        [tackle(), tackle(), tackle(), tackle()],
    );

    assert_eq!(result, Err(BattleError::InvalidStatPoints));
}

#[test]
fn mega_stone_marks_compatible_pokemon_as_mega_evolvable() {
    let charizard = Pokemon::new(
        &find_pokemon("Charizard").unwrap(),
        50,
        StatPoints {
            hp: 32,
            attack: 32,
            defense: 2,
            special_attack: 0,
            special_defense: 0,
            speed: 0,
        },
        Nature::Hardy,
        Some(HeldItem::MegaStone(MegaStone::CharizarditeX)),
        [tackle(), tackle(), tackle(), tackle()],
    )
    .unwrap();

    assert!(charizard.can_mega_evolve);
    assert!(!charizard.has_mega_evolved);
}

#[test]
fn hp_calculation_reflects_base_hp_and_stat_points() {
    let level = 50;

    let hp_low_base = calculate_max_hp(60, level, 0);
    assert_eq!(hp_low_base, 135);

    let hp_high_base = calculate_max_hp(78, level, 0);
    assert_eq!(hp_high_base, 153);

    let hp_with_stat_points = calculate_max_hp(78, level, 32);
    assert_eq!(hp_with_stat_points, 185);
}

#[test]
fn champions_ranked_doubles_uses_current_public_defaults() {
    let rules = ChampionsRules::ranked_doubles();

    assert_eq!(rules.format, BattleFormat::Doubles);
    assert_eq!(rules.mode, BattleMode::Ranked);
    assert_eq!(rules.team_size, 6);
    assert_eq!(rules.selected_team_size, 4);
    assert_eq!(rules.mechanic, BattleMechanic::MegaEvolution);
}

#[test]
fn champions_battle_rejects_invalid_champions_stat_points() {
    let invalid_points = StatPoints {
        hp: 33,
        attack: 33,
        defense: 0,
        special_attack: 0,
        special_defense: 0,
        speed: 0,
    };

    let result = Pokemon::from_spec(PokemonSpec {
        name: "Invalid",
        level: 50,
        primary_type: PokemonType::Normal,
        secondary_type: None,
        stats: Stats {
            hp: 100,
            attack: 100,
            defense: 100,
            special_attack: 100,
            special_defense: 100,
            speed: 100,
        },
        stat_points: invalid_points,
        nature: Nature::neutral(),
        moves: [tackle(), tackle(), tackle(), tackle()],
    });

    assert_eq!(result, Err(BattleError::InvalidStatPoints));
}

#[test]
fn casual_singles_uses_three_pokemon_rosters() {
    let rules = ChampionsRules::casual_singles();

    assert_eq!(rules.format, BattleFormat::Singles);
    assert_eq!(rules.mode, BattleMode::Casual);
    assert_eq!(rules.team_size, 3);
    assert_eq!(rules.selected_team_size, 3);
}

#[test]
fn stat_points_limits_are_per_stat_and_total() {
    let at_limits = StatPoints {
        hp: 32,
        attack: 32,
        defense: 2,
        special_attack: 0,
        special_defense: 0,
        speed: 0,
    };
    assert_eq!(at_limits.total(), 66);
    assert!(at_limits.is_valid_for_champions());

    let over_total = StatPoints {
        defense: 3,
        ..at_limits
    };
    assert_eq!(over_total.total(), 67);
    assert!(!over_total.is_valid_for_champions());

    let over_one = StatPoints {
        hp: 33,
        attack: 0,
        defense: 0,
        special_attack: 0,
        special_defense: 0,
        speed: 0,
    };
    assert!(!over_one.is_valid_for_champions());
}

#[test]
fn level_stats_and_natures_follow_the_formula() {
    assert_eq!(calculate_level_stat(100, 50, 0), 120);
    assert_eq!(calculate_level_stat(100, 50, 32), 152);

    let base = Stats {
        hp: 100,
        attack: 100,
        defense: 100,
        special_attack: 100,
        special_defense: 100,
        speed: 100,
    };
    let points = StatPoints {
        hp: 0,
        attack: 0,
        defense: 0,
        special_attack: 0,
        special_defense: 0,
        speed: 0,
    };
    let stats = calculate_stats(base, 50, points, Nature::Adamant);
    assert_eq!(stats.hp, 175);
    assert_eq!(stats.attack, 132);
    assert_eq!(stats.special_attack, 108);
    assert_eq!(stats.speed, 120);

    assert_eq!(Nature::Adamant.increased(), Some(StatName::Attack));
    assert_eq!(Nature::Adamant.decreased(), Some(StatName::SpecialAttack));
    assert_eq!(Nature::neutral().increased(), None);
    assert_eq!(Nature::Adamant.multiplier_for(StatName::Attack), Fraction::new(11, 10));
    assert_eq!(Nature::Adamant.multiplier_for(StatName::SpecialAttack), Fraction::new(9, 10));
    assert_eq!(Nature::Adamant.multiplier_for(StatName::Speed), Fraction::new(1, 1));
}

#[test]
fn single_type_chart_entries() {
    assert_eq!(ratio(type_effectiveness(PokemonType::Normal, PokemonType::GhostType)), 0.0);
    assert_eq!(ratio(type_effectiveness(PokemonType::Fire, PokemonType::Grass)), 2.0);
    assert_eq!(ratio(type_effectiveness(PokemonType::Water, PokemonType::Grass)), 0.5);
    assert_eq!(ratio(type_effectiveness(PokemonType::Dragon, PokemonType::Normal)), 1.0);
}

#[test]
fn mega_stone_names_match_ignoring_case() {
    let stone = HeldItem::MegaStone(MegaStone::Gengarite);
    assert!(stone.is_mega_stone_for("gengar"));
    assert!(stone.is_mega_stone_for("GENGAR"));
    assert!(!stone.is_mega_stone_for("Venusaur"));
    assert_eq!(MegaStone::CharizarditeY.compatible_species(), "Charizard");
}

#[test]
fn pokemon_from_spec_keeps_its_final_stats() {
    let stats = Stats {
        hp: 120,
        attack: 80,
        defense: 65,
        special_attack: 95,
        special_defense: 75,
        speed: 90,
    };
    let charmander = Pokemon::from_spec(PokemonSpec {
        name: "Charmander",
        level: 50,
        primary_type: PokemonType::Fire,
        secondary_type: None,
        stats,
        stat_points: StatPoints {
            hp: 16,
            attack: 10,
            defense: 10,
            special_attack: 10,
            special_defense: 10,
            speed: 10,
        },
        nature: Nature::neutral(),
        moves: [tackle(), tackle(), tackle(), tackle()],
    })
    .unwrap();

    assert_eq!(charmander.stats, stats);
    assert_eq!(charmander.current_hp, 120);
    assert!(charmander.item.is_none());
    assert!(!charmander.can_mega_evolve);
    assert_eq!(charmander.entry.name, "Charmander");
}
