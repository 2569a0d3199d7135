use omniring::info::{BattleError, Nature, PokemonType, StatPoints};
use omniring::pokedex::{
    build_pokemon_from_pokedex, build_pokemon_from_pokedex_with_item, find_pokemon, pokedex,
    PokedexError,
};
use omniring::info::{HeldItem, MegaStone};

fn valid_stat_points() -> StatPoints {
    StatPoints {
        hp: 16,
        attack: 10,
        defense: 10,
        special_attack: 10,
        special_defense: 10,
        speed: 10,
    }
}

#[test]
fn contains_final_evolution_entries() {
    assert_eq!(pokedex().len(), 6);
    assert!(find_pokemon("Charizard").is_some());
    assert!(find_pokemon("Dragonite").is_some());
    assert!(find_pokemon("Pikachu").is_none());
}

#[test]
fn exposes_base_stats_and_learnable_moves_per_pokemon() {
    let charizard = find_pokemon("Charizard").unwrap();

    assert_eq!(charizard.base_stats.special_attack, 109);
    assert_eq!(charizard.base_stats.speed, 100);
    assert!(
        charizard
            .learnable_moves()
            .iter()
            .any(|move_entry| move_entry.name == "Flamethrower")
    );
}

#[test]
fn builds_pokemon_with_four_selected_moves() {
    let lucario = build_pokemon_from_pokedex(
        "Lucario",
        50,
        valid_stat_points(),
        Nature::neutral(),
        ["Aura Sphere", "Quick Attack", "Metal Claw", "Close Combat"],
    )
    .unwrap();

    assert_eq!(lucario.moves.len(), 4);
    assert_eq!(lucario.moves[1].name, "Quick Attack");
    assert_eq!(lucario.moves[1].priority, 1);
    assert!(lucario.item.is_none());
}

#[test]
fn rejects_moves_missing_from_species_learnset() {
    let result = build_pokemon_from_pokedex(
        "Lucario",
        50,
        valid_stat_points(),
        Nature::neutral(),
        ["Aura Sphere", "Quick Attack", "Metal Claw", "Flamethrower"],
    );

    assert_eq!(result, Err(PokedexError::MoveNotLearnable { slot: 3 }));
}

#[test]
fn species_and_move_names_ignore_ascii_case() {
    let gengar = find_pokemon("gEnGaR").unwrap();
    assert_eq!(gengar.name, "Gengar");
    assert_eq!(gengar.primary_type, PokemonType::GhostType);

    let lucario = build_pokemon_from_pokedex(
        "lucario",
        50,
        valid_stat_points(),
        Nature::neutral(),
        ["aura sphere", "QUICK ATTACK", "Metal Claw", "Close Combat"],
    )
    .unwrap();
    assert_eq!(lucario.moves[0].name, "Aura Sphere");
}

#[test]
fn build_errors_name_the_failing_input() {
    assert_eq!(
        build_pokemon_from_pokedex(
            "Pikachu",
            50,
            valid_stat_points(),
            Nature::neutral(),
            ["Tackle", "Tackle", "Tackle", "Tackle"],
        ),
        Err(PokedexError::PokemonNotFound)
    );
    let too_many = StatPoints {
        hp: 33,
        ..valid_stat_points()
    };
    assert_eq!(
        build_pokemon_from_pokedex(
            "Lucario",
            50,
            too_many,
            Nature::neutral(),
            ["Aura Sphere", "Quick Attack", "Metal Claw", "Close Combat"],
        ),
        Err(PokedexError::InvalidPokemon(BattleError::InvalidStatPoints))
    );
}

#[test]
fn charizard_built_with_its_stone_can_mega_evolve() {
    let charizard = build_pokemon_from_pokedex_with_item(
        "Charizard",
        50,
        valid_stat_points(),
        Nature::Hardy,
        Some(HeldItem::MegaStone(MegaStone::CharizarditeY)),
        ["Flamethrower", "Air Slash", "Dragon Claw", "Protect"],
    )
    .unwrap();
    assert!(charizard.can_mega_evolve);
    assert_eq!(charizard.current_hp, charizard.stats.hp);
}

#[test]
fn battle_errors_convert_into_pokedex_errors() {
    assert_eq!(
        PokedexError::from(BattleError::InvalidStatPoints),
        PokedexError::InvalidPokemon(BattleError::InvalidStatPoints)
    );
}

#[test]
fn species_names_are_distinct_and_learnsets_match_the_move_data() {
    let dex = pokedex();
    for (i, entry) in dex.iter().enumerate() {
        assert_eq!(find_pokemon(entry.name), Some(*entry));
        for other in &dex[i + 1..] {
            assert!(!entry.name.eq_ignore_ascii_case(other.name));
        }
        for learnable in entry.learnable_moves() {
            assert_eq!(omniring::techdex::find_move(learnable.name), Some(learnable));
        }
    }
}
