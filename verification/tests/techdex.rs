use omniring::info::{MoveCategory, PokemonType};
use omniring::techdex::{find_move, techdex};

#[test]
fn contains_only_move_data() {
    let extreme_speed = find_move("Extreme Speed").unwrap();

    assert_eq!(techdex().len(), 33);
    assert_eq!(extreme_speed.priority, 2);
    assert_eq!(extreme_speed.move_type, PokemonType::Normal);
}

#[test]
fn move_lookup_ignores_ascii_case_and_converts_to_battle_moves() {
    let protect = find_move("protect").unwrap();
    assert_eq!(protect.name, "Protect");
    assert_eq!(protect.category, MoveCategory::Status);

    let battle_move = protect.to_move();
    assert_eq!(battle_move.name, "Protect");
    assert_eq!(battle_move.priority, protect.priority);
    assert_eq!(battle_move.accuracy, Some(protect.accuracy));
    assert!(find_move("Hyper Beam").is_none());
}

#[test]
fn every_move_is_found_by_its_own_name() {
    for entry in techdex() {
        assert_eq!(find_move(entry.name), Some(entry));
        assert_eq!(find_move(&entry.name.to_ascii_uppercase()), Some(entry));
    }
}
