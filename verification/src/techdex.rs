//! Move data.
use vstd::prelude::*;
use crate::info::{Move, MoveCategory, PokemonType};
use crate::text::{eq_ignore_ascii_case, lemma_ascii_name_key, lemma_matching_names_share_key, names_match};

verus! {

#[derive(Debug, Clone, Copy, PartialEq, Eq)]
pub struct MoveEntry {
    pub name: &'static str,
    pub move_type: PokemonType,
    pub category: MoveCategory,
    pub power: u16,
    pub accuracy: u8,
    pub priority: i8,
}

impl MoveEntry {
    /// Whether a battle move carries exactly this entry's data.
    pub open spec fn describes(self, m: Move) -> bool {
        &&& m.name@ == self.name@
        &&& m.move_type == self.move_type
        &&& m.category == self.category
        &&& m.power == self.power
        &&& m.accuracy == Some(self.accuracy)
        &&& m.priority == self.priority
    }

    pub fn to_move(self) -> (r: Move)
        ensures
            self.describes(r),
    {
        Move::new(self.name, self.move_type, self.category, self.power, Some(self.accuracy), self.priority)
    }
}

/// The move dictionary, in its fixed order.
pub open spec fn move_dict() -> Seq<MoveEntry> {
    seq![
        MoveEntry {
            name: "Flamethrower",
            move_type: PokemonType::Fire,
            category: MoveCategory::Special,
            power: 90,
            accuracy: 100,
            priority: 0,
        },
        MoveEntry {
            name: "Air Slash",
            move_type: PokemonType::Flying,
            category: MoveCategory::Special,
            power: 75,
            accuracy: 95,
            priority: 0,
        },
        MoveEntry {
            name: "Dragon Claw",
            move_type: PokemonType::Dragon,
            category: MoveCategory::Physical,
            power: 80,
            accuracy: 100,
            priority: 0,
        },
        MoveEntry {
            name: "Fire Blast",
            move_type: PokemonType::Fire,
            category: MoveCategory::Special,
            power: 110,
            accuracy: 85,
            priority: 0,
        },
        MoveEntry {
            name: "Dragon Dance",
            move_type: PokemonType::Dragon,
            category: MoveCategory::Status,
            power: 0,
            accuracy: 100,
            priority: 0,
        },
        MoveEntry {
            name: "Vine Whip",
            move_type: PokemonType::Grass,
            category: MoveCategory::Physical,
            power: 45,
            accuracy: 100,
            priority: 0,
        },
        MoveEntry {
            name: "Razor Leaf",
            move_type: PokemonType::Grass,
            category: MoveCategory::Physical,
            power: 55,
            accuracy: 95,
            priority: 0,
        },
        MoveEntry {
            name: "Sleep Powder",
            move_type: PokemonType::Grass,
            category: MoveCategory::Status,
            power: 0,
            accuracy: 75,
            priority: 0,
        },
        MoveEntry {
            name: "Seed Bomb",
            move_type: PokemonType::Grass,
            category: MoveCategory::Physical,
            power: 80,
            accuracy: 100,
            priority: 0,
        },
        MoveEntry {
            name: "Solar Beam",
            move_type: PokemonType::Grass,
            category: MoveCategory::Special,
            power: 120,
            accuracy: 100,
            priority: 0,
        },
        MoveEntry {
            name: "Water Gun",
            move_type: PokemonType::Water,
            category: MoveCategory::Special,
            power: 40,
            accuracy: 100,
            priority: 0,
        },
        MoveEntry {
            name: "Rapid Spin",
            move_type: PokemonType::Normal,
            category: MoveCategory::Physical,
            power: 50,
            accuracy: 100,
            priority: 0,
        },
        MoveEntry {
            name: "Bite",
            move_type: PokemonType::Dark,
            category: MoveCategory::Physical,
            power: 60,
            accuracy: 100,
            priority: 0,
        },
        MoveEntry {
            name: "Water Pulse",
            move_type: PokemonType::Water,
            category: MoveCategory::Special,
            power: 60,
            accuracy: 100,
            priority: 0,
        },
        MoveEntry {
            name: "Hydro Pump",
            move_type: PokemonType::Water,
            category: MoveCategory::Special,
            power: 110,
            accuracy: 80,
            priority: 0,
        },
        MoveEntry {
            name: "Shadow Ball",
            move_type: PokemonType::GhostType,
            category: MoveCategory::Special,
            power: 80,
            accuracy: 100,
            priority: 0,
        },
        MoveEntry {
            name: "Hex",
            move_type: PokemonType::GhostType,
            category: MoveCategory::Special,
            power: 65,
            accuracy: 100,
            priority: 0,
        },
        MoveEntry {
            name: "Hypnosis",
            move_type: PokemonType::Psychic,
            category: MoveCategory::Status,
            power: 0,
            accuracy: 60,
            priority: 0,
        },
        MoveEntry {
            name: "Dark Pulse",
            move_type: PokemonType::Dark,
            category: MoveCategory::Special,
            power: 80,
            accuracy: 100,
            priority: 0,
        },
        MoveEntry {
            name: "Shadow Sneak",
            move_type: PokemonType::GhostType,
            category: MoveCategory::Physical,
            power: 40,
            accuracy: 100,
            priority: 1,
        },
        MoveEntry {
            name: "Aura Sphere",
            move_type: PokemonType::Fighting,
            category: MoveCategory::Special,
            power: 80,
            accuracy: 100,
            priority: 0,
        },
        MoveEntry {
            name: "Metal Claw",
            move_type: PokemonType::Steel,
            category: MoveCategory::Physical,
            power: 50,
            accuracy: 95,
            priority: 0,
        },
        MoveEntry {
            name: "Quick Attack",
            move_type: PokemonType::Normal,
            category: MoveCategory::Physical,
            power: 40,
            accuracy: 100,
            priority: 1,
        },
        MoveEntry {
            name: "Swords Dance",
            move_type: PokemonType::Normal,
            category: MoveCategory::Status,
            power: 0,
            accuracy: 100,
            priority: 0,
        },
        MoveEntry {
            name: "Close Combat",
            move_type: PokemonType::Fighting,
            category: MoveCategory::Physical,
            power: 120,
            accuracy: 100,
            priority: 0,
        },
        MoveEntry {
            name: "Wing Attack",
            move_type: PokemonType::Flying,
            category: MoveCategory::Physical,
            power: 60,
            accuracy: 100,
            priority: 0,
        },
        MoveEntry {
            name: "Extreme Speed",
            move_type: PokemonType::Normal,
            category: MoveCategory::Physical,
            power: 80,
            accuracy: 100,
            priority: 2,
        },
        MoveEntry {
            name: "Fire Punch",
            move_type: PokemonType::Fire,
            category: MoveCategory::Physical,
            power: 75,
            accuracy: 100,
            priority: 0,
        },
        MoveEntry {
            name: "Thunder Punch",
            move_type: PokemonType::Electric,
            category: MoveCategory::Physical,
            power: 75,
            accuracy: 100,
            priority: 0,
        },
        MoveEntry {
            name: "Hurricane",
            move_type: PokemonType::Flying,
            category: MoveCategory::Special,
            power: 110,
            accuracy: 70,
            priority: 0,
        },
        MoveEntry {
            name: "Rock Slide",
            move_type: PokemonType::Rock,
            category: MoveCategory::Physical,
            power: 75,
            accuracy: 90,
            priority: 0,
        },
        MoveEntry {
            name: "Protect",
            move_type: PokemonType::Normal,
            category: MoveCategory::Status,
            power: 0,
            accuracy: 100,
            priority: 4,
        },
        MoveEntry {
            name: "Detect",
            move_type: PokemonType::Fighting,
            category: MoveCategory::Status,
            power: 0,
            accuracy: 100,
            priority: 4,
        }
    ]
}

/// The first entry of `entries` whose name matches `name` ignoring ASCII case.
pub open spec fn first_move_named(entries: Seq<MoveEntry>, name: &str) -> Option<MoveEntry>
    decreases entries.len(),
{
    if entries.len() == 0 {
        None
    } else if names_match(entries[0].name, name) {
        Some(entries[0])
    } else {
        first_move_named(entries.drop_first(), name)
    }
}

/// Scanning a sequence for a name: past a non-matching prefix, the first match of the
/// whole sequence is the first match of the rest.
pub proof fn lemma_first_move_named_step(entries: Seq<MoveEntry>, name: &str, i: int)
    requires
        0 <= i < entries.len(),
    ensures
        first_move_named(entries.skip(i), name) == (if names_match(entries[i].name, name) {
            Some(entries[i])
        } else {
            first_move_named(entries.skip(i + 1), name)
        }),
{
    assert(entries.skip(i).drop_first() =~= entries.skip(i + 1));
}

/// No two moves of the dictionary have names that match ignoring ASCII case.
pub proof fn lemma_move_names_distinct()
    ensures
        forall|i: int, j: int|
            0 <= i < j < move_dict().len() ==> !names_match(#[trigger] move_dict()[i].name, #[trigger] move_dict()[j].name),
{
    reveal_strlit("Flamethrower");
    lemma_ascii_name_key("Flamethrower");
    reveal_strlit("Air Slash");
    lemma_ascii_name_key("Air Slash");
    reveal_strlit("Dragon Claw");
    lemma_ascii_name_key("Dragon Claw");
    reveal_strlit("Fire Blast");
    lemma_ascii_name_key("Fire Blast");
    reveal_strlit("Dragon Dance");
    lemma_ascii_name_key("Dragon Dance");
    reveal_strlit("Vine Whip");
    lemma_ascii_name_key("Vine Whip");
    reveal_strlit("Razor Leaf");
    lemma_ascii_name_key("Razor Leaf");
    reveal_strlit("Sleep Powder");
    lemma_ascii_name_key("Sleep Powder");
    reveal_strlit("Seed Bomb");
    lemma_ascii_name_key("Seed Bomb");
    reveal_strlit("Solar Beam");
    lemma_ascii_name_key("Solar Beam");
    reveal_strlit("Water Gun");
    lemma_ascii_name_key("Water Gun");
    reveal_strlit("Rapid Spin");
    lemma_ascii_name_key("Rapid Spin");
    reveal_strlit("Bite");
    lemma_ascii_name_key("Bite");
    reveal_strlit("Water Pulse");
    lemma_ascii_name_key("Water Pulse");
    reveal_strlit("Hydro Pump");
    lemma_ascii_name_key("Hydro Pump");
    reveal_strlit("Shadow Ball");
    lemma_ascii_name_key("Shadow Ball");
    reveal_strlit("Hex");
    lemma_ascii_name_key("Hex");
    reveal_strlit("Hypnosis");
    lemma_ascii_name_key("Hypnosis");
    reveal_strlit("Dark Pulse");
    lemma_ascii_name_key("Dark Pulse");
    reveal_strlit("Shadow Sneak");
    lemma_ascii_name_key("Shadow Sneak");
    reveal_strlit("Aura Sphere");
    lemma_ascii_name_key("Aura Sphere");
    reveal_strlit("Metal Claw");
    lemma_ascii_name_key("Metal Claw");
    reveal_strlit("Quick Attack");
    lemma_ascii_name_key("Quick Attack");
    reveal_strlit("Swords Dance");
    lemma_ascii_name_key("Swords Dance");
    reveal_strlit("Close Combat");
    lemma_ascii_name_key("Close Combat");
    reveal_strlit("Wing Attack");
    lemma_ascii_name_key("Wing Attack");
    reveal_strlit("Extreme Speed");
    lemma_ascii_name_key("Extreme Speed");
    reveal_strlit("Fire Punch");
    lemma_ascii_name_key("Fire Punch");
    reveal_strlit("Thunder Punch");
    lemma_ascii_name_key("Thunder Punch");
    reveal_strlit("Hurricane");
    lemma_ascii_name_key("Hurricane");
    reveal_strlit("Rock Slide");
    lemma_ascii_name_key("Rock Slide");
    reveal_strlit("Protect");
    lemma_ascii_name_key("Protect");
    reveal_strlit("Detect");
    lemma_ascii_name_key("Detect");
    assert forall|i: int, j: int| 0 <= i < j < move_dict().len() implies !names_match(
        #[trigger] move_dict()[i].name,
        #[trigger] move_dict()[j].name,
    ) by {
        assert(i == 0 || i == 1 || i == 2 || i == 3 || i == 4 || i == 5 || i == 6 || i == 7 || i == 8 || i == 9 || i == 10 || i == 11 || i == 12 || i == 13 || i == 14 || i == 15 || i == 16 || i == 17 || i == 18 || i == 19 || i == 20 || i == 21 || i == 22 || i == 23 || i == 24 || i == 25 || i == 26 || i == 27 || i == 28 || i == 29 || i == 30 || i == 31 || i == 32);
        assert(j == 0 || j == 1 || j == 2 || j == 3 || j == 4 || j == 5 || j == 6 || j == 7 || j == 8 || j == 9 || j == 10 || j == 11 || j == 12 || j == 13 || j == 14 || j == 15 || j == 16 || j == 17 || j == 18 || j == 19 || j == 20 || j == 21 || j == 22 || j == 23 || j == 24 || j == 25 || j == 26 || j == 27 || j == 28 || j == 29 || j == 30 || j == 31 || j == 32);
        if names_match(move_dict()[i].name, move_dict()[j].name) {
            lemma_matching_names_share_key(move_dict()[i].name, move_dict()[j].name);
        }
    }
}

proof fn lemma_entry_found_from(k: int, j: int)
    requires
        0 <= j <= k < move_dict().len(),
    ensures
        first_move_named(move_dict().skip(j), move_dict()[k].name) == Some(move_dict()[k]),
    decreases k - j,
{
    let name = move_dict()[k].name;
    lemma_first_move_named_step(move_dict(), name, j);
    if j < k {
        lemma_move_names_distinct();
        assert(!names_match(move_dict()[j].name, move_dict()[k].name));
        lemma_entry_found_from(k, j + 1);
    } else {
        assert(names_match(name, name));
    }
}

/// Looking up a move of the dictionary by its own name finds that very entry.
pub proof fn lemma_each_move_found_by_name(k: int)
    requires
        0 <= k < move_dict().len(),
    ensures
        first_move_named(move_dict(), move_dict()[k].name) == Some(move_dict()[k]),
{
    lemma_entry_found_from(k, 0);
    assert(move_dict().skip(0) =~= move_dict());
}

/// Returns every move in the dictionary.
pub fn techdex() -> (r: Vec<MoveEntry>)
    ensures
        r@ == move_dict(),
{
    vec![
        MoveEntry {
            name: "Flamethrower",
            move_type: PokemonType::Fire,
            category: MoveCategory::Special,
            power: 90,
            accuracy: 100,
            priority: 0,
        },
        MoveEntry {
            name: "Air Slash",
            move_type: PokemonType::Flying,
            category: MoveCategory::Special,
            power: 75,
            accuracy: 95,
            priority: 0,
        },
        MoveEntry {
            name: "Dragon Claw",
            move_type: PokemonType::Dragon,
            category: MoveCategory::Physical,
            power: 80,
            accuracy: 100,
            priority: 0,
        },
        MoveEntry {
            name: "Fire Blast",
            move_type: PokemonType::Fire,
            category: MoveCategory::Special,
            power: 110,
            accuracy: 85,
            priority: 0,
        },
        MoveEntry {
            name: "Dragon Dance",
            move_type: PokemonType::Dragon,
            category: MoveCategory::Status,
            power: 0,
            accuracy: 100,
            priority: 0,
        },
        MoveEntry {
            name: "Vine Whip",
            move_type: PokemonType::Grass,
            category: MoveCategory::Physical,
            power: 45,
            accuracy: 100,
            priority: 0,
        },
        MoveEntry {
            name: "Razor Leaf",
            move_type: PokemonType::Grass,
            category: MoveCategory::Physical,
            power: 55,
            accuracy: 95,
            priority: 0,
        },
        MoveEntry {
            name: "Sleep Powder",
            move_type: PokemonType::Grass,
            category: MoveCategory::Status,
            power: 0,
            accuracy: 75,
            priority: 0,
        },
        MoveEntry {
            name: "Seed Bomb",
            move_type: PokemonType::Grass,
            category: MoveCategory::Physical,
            power: 80,
            accuracy: 100,
            priority: 0,
        },
        MoveEntry {
            name: "Solar Beam",
            move_type: PokemonType::Grass,
            category: MoveCategory::Special,
            power: 120,
            accuracy: 100,
            priority: 0,
        },
        MoveEntry {
            name: "Water Gun",
            move_type: PokemonType::Water,
            category: MoveCategory::Special,
            power: 40,
            accuracy: 100,
            priority: 0,
        },
        MoveEntry {
            name: "Rapid Spin",
            move_type: PokemonType::Normal,
            category: MoveCategory::Physical,
            power: 50,
            accuracy: 100,
            priority: 0,
        },
        MoveEntry {
            name: "Bite",
            move_type: PokemonType::Dark,
            category: MoveCategory::Physical,
            power: 60,
            accuracy: 100,
            priority: 0,
        },
        MoveEntry {
            name: "Water Pulse",
            move_type: PokemonType::Water,
            category: MoveCategory::Special,
            power: 60,
            accuracy: 100,
            priority: 0,
        },
        MoveEntry {
            name: "Hydro Pump",
            move_type: PokemonType::Water,
            category: MoveCategory::Special,
            power: 110,
            accuracy: 80,
            priority: 0,
        },
        MoveEntry {
            name: "Shadow Ball",
            move_type: PokemonType::GhostType,
            category: MoveCategory::Special,
            power: 80,
            accuracy: 100,
            priority: 0,
        },
        MoveEntry {
            name: "Hex",
            move_type: PokemonType::GhostType,
            category: MoveCategory::Special,
            power: 65,
            accuracy: 100,
            priority: 0,
        },
        MoveEntry {
            name: "Hypnosis",
            move_type: PokemonType::Psychic,
            category: MoveCategory::Status,
            power: 0,
            accuracy: 60,
            priority: 0,
        },
        MoveEntry {
            name: "Dark Pulse",
            move_type: PokemonType::Dark,
            category: MoveCategory::Special,
            power: 80,
            accuracy: 100,
            priority: 0,
        },
        MoveEntry {
            name: "Shadow Sneak",
            move_type: PokemonType::GhostType,
            category: MoveCategory::Physical,
            power: 40,
            accuracy: 100,
            priority: 1,
        },
        MoveEntry {
            name: "Aura Sphere",
            move_type: PokemonType::Fighting,
            category: MoveCategory::Special,
            power: 80,
            accuracy: 100,
            priority: 0,
        },
        MoveEntry {
            name: "Metal Claw",
            move_type: PokemonType::Steel,
            category: MoveCategory::Physical,
            power: 50,
            accuracy: 95,
            priority: 0,
        },
        MoveEntry {
            name: "Quick Attack",
            move_type: PokemonType::Normal,
            category: MoveCategory::Physical,
            power: 40,
            accuracy: 100,
            priority: 1,
        },
        MoveEntry {
            name: "Swords Dance",
            move_type: PokemonType::Normal,
            category: MoveCategory::Status,
            power: 0,
            accuracy: 100,
            priority: 0,
        },
        MoveEntry {
            name: "Close Combat",
            move_type: PokemonType::Fighting,
            category: MoveCategory::Physical,
            power: 120,
            accuracy: 100,
            priority: 0,
        },
        MoveEntry {
            name: "Wing Attack",
            move_type: PokemonType::Flying,
            category: MoveCategory::Physical,
            power: 60,
            accuracy: 100,
            priority: 0,
        },
        MoveEntry {
            name: "Extreme Speed",
            move_type: PokemonType::Normal,
            category: MoveCategory::Physical,
            power: 80,
            accuracy: 100,
            priority: 2,
        },
        MoveEntry {
            name: "Fire Punch",
            move_type: PokemonType::Fire,
            category: MoveCategory::Physical,
            power: 75,
            accuracy: 100,
            priority: 0,
        },
        MoveEntry {
            name: "Thunder Punch",
            move_type: PokemonType::Electric,
            category: MoveCategory::Physical,
            power: 75,
            accuracy: 100,
            priority: 0,
        },
        MoveEntry {
            name: "Hurricane",
            move_type: PokemonType::Flying,
            category: MoveCategory::Special,
            power: 110,
            accuracy: 70,
            priority: 0,
        },
        MoveEntry {
            name: "Rock Slide",
            move_type: PokemonType::Rock,
            category: MoveCategory::Physical,
            power: 75,
            accuracy: 90,
            priority: 0,
        },
        MoveEntry {
            name: "Protect",
            move_type: PokemonType::Normal,
            category: MoveCategory::Status,
            power: 0,
            accuracy: 100,
            priority: 4,
        },
        MoveEntry {
            name: "Detect",
            move_type: PokemonType::Fighting,
            category: MoveCategory::Status,
            power: 0,
            accuracy: 100,
            priority: 4,
        }
    ]
}

/// Finds a move by name, ignoring ASCII case.
pub fn find_move(name: &str) -> (r: Option<MoveEntry>)
    ensures
        r == first_move_named(move_dict(), name),
{
    let dex = techdex();
    let mut i: usize = 0;
    assert(dex@.skip(0) =~= dex@);
    while i < dex.len()
        invariant
            dex@ == move_dict(),
            0 <= i <= dex@.len(),
            first_move_named(move_dict(), name) == first_move_named(dex@.skip(i as int), name),
        decreases dex@.len() - i,
    {
        proof {
            lemma_first_move_named_step(dex@, name, i as int);
        }
        if eq_ignore_ascii_case(dex[i].name, name) {
            return Some(dex[i]);
        }
        i = i + 1;
    }
    assert(dex@.skip(i as int).len() == 0);
    None
}

} // verus!
