//! Pokemon species data for the final-evolution Pokemon this simulator supports.
//!
//! A `PokemonEntry` stores species-level facts: name, typing, base stats, and the moves
//! the species can learn. Battle-ready Pokemon are built from this data by selecting
//! four move names.
use vstd::prelude::*;
use crate::info::{BattleError, HeldItem, Move, Nature, Pokemon, PokemonType, StatPoints, Stats};
use crate::techdex::{MoveEntry, move_dict, techdex, first_move_named, lemma_first_move_named_step,
    lemma_each_move_found_by_name};
use crate::text::{eq_ignore_ascii_case, lemma_ascii_name_key, lemma_matching_names_share_key, names_match};

verus! {

#[derive(Debug, Clone, Copy, PartialEq, Eq)]
pub struct PokemonEntry {
    pub name: &'static str,
    pub primary_type: PokemonType,
    pub secondary_type: Option<PokemonType>,
    pub base_stats: Stats,
    /// Positions in the move dictionary of the moves this species can learn, in learnset order.
    pub learnset: &'static [usize],
}

#[derive(Debug, Clone, Copy, PartialEq, Eq)]
pub enum PokedexError {
    PokemonNotFound,
    MoveNotLearnable { slot: usize },
    InvalidPokemon(BattleError),
}

impl From<BattleError> for PokedexError {
    fn from(error: BattleError) -> (r: Self) {
        PokedexError::InvalidPokemon(error)
    }
}

impl vstd::std_specs::convert::FromSpecImpl<BattleError> for PokedexError {
    open spec fn obeys_from_spec() -> bool {
        true
    }

    open spec fn from_spec(error: BattleError) -> Self {
        PokedexError::InvalidPokemon(error)
    }
}

impl PokemonEntry {
    /// Every learnset position names a move of the dictionary.
    pub open spec fn learnset_in_dict(self) -> bool {
        forall|i: int| 0 <= i < self.learnset@.len() ==> #[trigger] self.learnset@[i] < move_dict().len()
    }

    /// The moves this species can learn, in learnset order.
    pub open spec fn learnable(self) -> Seq<MoveEntry> {
        self.learnset@.map_values(|k: usize| move_dict()[k as int])
    }

    /// Returns the moves this species can learn, in learnset order.
    pub fn learnable_moves(&self) -> (r: Vec<MoveEntry>)
        requires
            self.learnset_in_dict(),
        ensures
            r@ == self.learnable(),
    {
        let dex = techdex();
        let mut out: Vec<MoveEntry> = Vec::new();
        let mut i: usize = 0;
        while i < self.learnset.len()
            invariant
                dex@ == move_dict(),
                self.learnset_in_dict(),
                0 <= i <= self.learnset@.len(),
                out@ == self.learnable().take(i as int),
            decreases self.learnset@.len() - i,
        {
            let k = self.learnset[i];
            assert(self.learnset@[i as int] < move_dict().len());
            out.push(dex[k]);
            assert(self.learnable().take(i + 1) =~= self.learnable().take(i as int).push(dex@[k as int]));
            i = i + 1;
        }
        assert(self.learnable().take(i as int) =~= self.learnable());
        out
    }
}

/// The species dictionary, in its fixed order.
pub open spec fn species_dict() -> Seq<PokemonEntry> {
    seq![
        PokemonEntry {
            name: "Charizard",
            primary_type: PokemonType::Fire,
            secondary_type: Some(PokemonType::Flying),
            base_stats: Stats {
                hp: 78,
                attack: 84,
                defense: 78,
                special_attack: 109,
                special_defense: 85,
                speed: 100,
            },
            learnset: &[0, 1, 2, 3, 4, 31],
        },
        PokemonEntry {
            name: "Venusaur",
            primary_type: PokemonType::Grass,
            secondary_type: Some(PokemonType::Poison),
            base_stats: Stats {
                hp: 80,
                attack: 82,
                defense: 83,
                special_attack: 100,
                special_defense: 100,
                speed: 80,
            },
            learnset: &[5, 6, 7, 8, 9],
        },
        PokemonEntry {
            name: "Blastoise",
            primary_type: PokemonType::Water,
            secondary_type: None,
            base_stats: Stats {
                hp: 79,
                attack: 83,
                defense: 100,
                special_attack: 85,
                special_defense: 105,
                speed: 78,
            },
            learnset: &[10, 11, 12, 13, 14],
        },
        PokemonEntry {
            name: "Gengar",
            primary_type: PokemonType::GhostType,
            secondary_type: Some(PokemonType::Poison),
            base_stats: Stats {
                hp: 60,
                attack: 65,
                defense: 60,
                special_attack: 130,
                special_defense: 75,
                speed: 110,
            },
            learnset: &[15, 16, 17, 18, 19],
        },
        PokemonEntry {
            name: "Lucario",
            primary_type: PokemonType::Fighting,
            secondary_type: Some(PokemonType::Steel),
            base_stats: Stats {
                hp: 70,
                attack: 110,
                defense: 70,
                special_attack: 115,
                special_defense: 70,
                speed: 90,
            },
            learnset: &[20, 21, 22, 23, 24],
        },
        PokemonEntry {
            name: "Dragonite",
            primary_type: PokemonType::Dragon,
            secondary_type: Some(PokemonType::Flying),
            base_stats: Stats {
                hp: 91,
                attack: 134,
                defense: 95,
                special_attack: 100,
                special_defense: 100,
                speed: 80,
            },
            learnset: &[25, 26, 27, 28, 29],
        }
    ]
}

/// The first entry of `entries` whose name matches `name` ignoring ASCII case.
pub open spec fn first_species_named(entries: Seq<PokemonEntry>, name: &str) -> Option<PokemonEntry>
    decreases entries.len(),
{
    if entries.len() == 0 {
        None
    } else if names_match(entries[0].name, name) {
        Some(entries[0])
    } else {
        first_species_named(entries.drop_first(), name)
    }
}

proof fn lemma_first_species_named_step(entries: Seq<PokemonEntry>, name: &str, i: int)
    requires
        0 <= i < entries.len(),
    ensures
        first_species_named(entries.skip(i), name) == (if names_match(entries[i].name, name) {
            Some(entries[i])
        } else {
            first_species_named(entries.skip(i + 1), name)
        }),
{
    assert(entries.skip(i).drop_first() =~= entries.skip(i + 1));
}

/// Every species of the dictionary has a learnset within the move dictionary.
pub proof fn lemma_species_learnsets_in_dict()
    ensures
        forall|i: int| 0 <= i < species_dict().len() ==> #[trigger] species_dict()[i].learnset_in_dict(),
{
    assert(species_dict()[0].learnset@ =~= seq![0usize, 1, 2, 3, 4, 31]);
    assert(species_dict()[1].learnset@ =~= seq![5usize, 6, 7, 8, 9]);
    assert(species_dict()[2].learnset@ =~= seq![10usize, 11, 12, 13, 14]);
    assert(species_dict()[3].learnset@ =~= seq![15usize, 16, 17, 18, 19]);
    assert(species_dict()[4].learnset@ =~= seq![20usize, 21, 22, 23, 24]);
    assert(species_dict()[5].learnset@ =~= seq![25usize, 26, 27, 28, 29]);
}

/// No two species of the dictionary have names that match ignoring ASCII case.
pub proof fn lemma_species_names_distinct()
    ensures
        forall|i: int, j: int|
            0 <= i < j < species_dict().len() ==> !names_match(#[trigger] species_dict()[i].name, #[trigger] species_dict()[j].name),
{
    reveal_strlit("Charizard");
    lemma_ascii_name_key("Charizard");
    reveal_strlit("Venusaur");
    lemma_ascii_name_key("Venusaur");
    reveal_strlit("Blastoise");
    lemma_ascii_name_key("Blastoise");
    reveal_strlit("Gengar");
    lemma_ascii_name_key("Gengar");
    reveal_strlit("Lucario");
    lemma_ascii_name_key("Lucario");
    reveal_strlit("Dragonite");
    lemma_ascii_name_key("Dragonite");
    assert forall|i: int, j: int| 0 <= i < j < species_dict().len() implies !names_match(
        #[trigger] species_dict()[i].name,
        #[trigger] species_dict()[j].name,
    ) by {
        assert(i == 0 || i == 1 || i == 2 || i == 3 || i == 4 || i == 5);
        assert(j == 0 || j == 1 || j == 2 || j == 3 || j == 4 || j == 5);
        if names_match(species_dict()[i].name, species_dict()[j].name) {
            lemma_matching_names_share_key(species_dict()[i].name, species_dict()[j].name);
        }
    }
}

proof fn lemma_species_found_from(k: int, j: int)
    requires
        0 <= j <= k < species_dict().len(),
    ensures
        first_species_named(species_dict().skip(j), species_dict()[k].name) == Some(species_dict()[k]),
    decreases k - j,
{
    let name = species_dict()[k].name;
    lemma_first_species_named_step(species_dict(), name, j);
    if j < k {
        lemma_species_names_distinct();
        assert(!names_match(species_dict()[j].name, species_dict()[k].name));
        lemma_species_found_from(k, j + 1);
    } else {
        assert(names_match(name, name));
    }
}

/// Looking up a species of the dictionary by its own name finds that very entry.
pub proof fn lemma_each_species_found_by_name(k: int)
    requires
        0 <= k < species_dict().len(),
    ensures
        first_species_named(species_dict(), species_dict()[k].name) == Some(species_dict()[k]),
{
    lemma_species_found_from(k, 0);
    assert(species_dict().skip(0) =~= species_dict());
}

/// Every move a species can learn is the move dictionary's entry of that name: looking it
/// up by name finds exactly the same data.
pub proof fn lemma_learnable_moves_match_techdex(i: int, p: int)
    requires
        0 <= i < species_dict().len(),
        0 <= p < species_dict()[i].learnable().len(),
    ensures
        first_move_named(move_dict(), species_dict()[i].learnable()[p].name) == Some(
            species_dict()[i].learnable()[p],
        ),
{
    lemma_species_learnsets_in_dict();
    let e = species_dict()[i];
    assert(e.learnset_in_dict());
    let k = e.learnset@[p] as int;
    assert(e.learnable()[p] == move_dict()[k]);
    lemma_each_move_found_by_name(k);
}

/// A species found by name comes from the dictionary.
pub proof fn lemma_first_species_named_in(entries: Seq<PokemonEntry>, name: &str)
    ensures
        first_species_named(entries, name) matches Some(e) ==> exists|i: int|
            0 <= i < entries.len() && entries[i] == e,
    decreases entries.len(),
{
    if entries.len() > 0 && !names_match(entries[0].name, name) {
        lemma_first_species_named_in(entries.drop_first(), name);
        if let Some(e) = first_species_named(entries.drop_first(), name) {
            let i = choose|i: int| 0 <= i < entries.drop_first().len() && entries.drop_first()[i] == e;
            assert(entries[i + 1] == e);
        }
    }
}

/// Returns every species in the dictionary.
pub fn pokedex() -> (r: Vec<PokemonEntry>)
    ensures
        r@ == species_dict(),
{
    vec![
        PokemonEntry {
            name: "Charizard",
            primary_type: PokemonType::Fire,
            secondary_type: Some(PokemonType::Flying),
            base_stats: Stats {
                hp: 78,
                attack: 84,
                defense: 78,
                special_attack: 109,
                special_defense: 85,
                speed: 100,
            },
            learnset: &[0, 1, 2, 3, 4, 31],
        },
        PokemonEntry {
            name: "Venusaur",
            primary_type: PokemonType::Grass,
            secondary_type: Some(PokemonType::Poison),
            base_stats: Stats {
                hp: 80,
                attack: 82,
                defense: 83,
                special_attack: 100,
                special_defense: 100,
                speed: 80,
            },
            learnset: &[5, 6, 7, 8, 9],
        },
        PokemonEntry {
            name: "Blastoise",
            primary_type: PokemonType::Water,
            secondary_type: None,
            base_stats: Stats {
                hp: 79,
                attack: 83,
                defense: 100,
                special_attack: 85,
                special_defense: 105,
                speed: 78,
            },
            learnset: &[10, 11, 12, 13, 14],
        },
        PokemonEntry {
            name: "Gengar",
            primary_type: PokemonType::GhostType,
            secondary_type: Some(PokemonType::Poison),
            base_stats: Stats {
                hp: 60,
                attack: 65,
                defense: 60,
                special_attack: 130,
                special_defense: 75,
                speed: 110,
            },
            learnset: &[15, 16, 17, 18, 19],
        },
        PokemonEntry {
            name: "Lucario",
            primary_type: PokemonType::Fighting,
            secondary_type: Some(PokemonType::Steel),
            base_stats: Stats {
                hp: 70,
                attack: 110,
                defense: 70,
                special_attack: 115,
                special_defense: 70,
                speed: 90,
            },
            learnset: &[20, 21, 22, 23, 24],
        },
        PokemonEntry {
            name: "Dragonite",
            primary_type: PokemonType::Dragon,
            secondary_type: Some(PokemonType::Flying),
            base_stats: Stats {
                hp: 91,
                attack: 134,
                defense: 95,
                special_attack: 100,
                special_defense: 100,
                speed: 80,
            },
            learnset: &[25, 26, 27, 28, 29],
        }
    ]
}

/// Finds a species by name, ignoring ASCII case.
pub fn find_pokemon(name: &str) -> (r: Option<PokemonEntry>)
    ensures
        r == first_species_named(species_dict(), name),
        r matches Some(e) ==> e.learnset_in_dict(),
{
    proof {
        lemma_species_learnsets_in_dict();
        lemma_first_species_named_in(species_dict(), name);
    }
    let dex = pokedex();
    let mut i: usize = 0;
    assert(dex@.skip(0) =~= dex@);
    while i < dex.len()
        invariant
            dex@ == species_dict(),
            0 <= i <= dex@.len(),
            first_species_named(species_dict(), name) == first_species_named(dex@.skip(i as int), name),
        decreases dex@.len() - i,
    {
        proof {
            lemma_first_species_named_step(dex@, name, i as int);
        }
        if eq_ignore_ascii_case(dex[i].name, name) {
            return Some(dex[i]);
        }
        i = i + 1;
    }
    assert(dex@.skip(i as int).len() == 0);
    None
}

/// The move a species learns under a name: the first learnable move whose name matches.
pub open spec fn learnable_move(species: PokemonEntry, move_name: &str) -> Option<MoveEntry> {
    first_move_named(species.learnable(), move_name)
}

fn find_learnable_move(species: &PokemonEntry, move_name: &str, slot: usize) -> (r: Result<MoveEntry, PokedexError>)
    requires
        species.learnset_in_dict(),
    ensures
        r == (match learnable_move(*species, move_name) {
            Some(m) => Ok::<MoveEntry, PokedexError>(m),
            None => Err(PokedexError::MoveNotLearnable { slot }),
        }),
{
    let moves = species.learnable_moves();
    let mut i: usize = 0;
    assert(moves@.skip(0) =~= moves@);
    while i < moves.len()
        invariant
            moves@ == species.learnable(),
            0 <= i <= moves@.len(),
            learnable_move(*species, move_name) == first_move_named(moves@.skip(i as int), move_name),
        decreases moves@.len() - i,
    {
        proof {
            lemma_first_move_named_step(moves@, move_name, i as int);
        }
        if eq_ignore_ascii_case(moves[i].name, move_name) {
            return Ok(moves[i]);
        }
        i = i + 1;
    }
    assert(moves@.skip(i as int).len() == 0);
    Err(PokedexError::MoveNotLearnable { slot })
}

/// The outcome of building a Pokemon from the Pokedex, as an error or as the Pokemon's
/// species and moves: the species is found by name, then each move name in slot order
/// must name a learnable move, then the stat points must be valid.
pub open spec fn build_outcome(
    species_name: &str,
    stat_points: StatPoints,
    move_names: [&str; 4],
) -> Result<(PokemonEntry, Seq<MoveEntry>), PokedexError> {
    match first_species_named(species_dict(), species_name) {
        None => Err(PokedexError::PokemonNotFound),
        Some(species) => {
            let learned = Seq::new(4, |k: int| learnable_move(species, move_names[k]));
            if learned[0] is None {
                Err(PokedexError::MoveNotLearnable { slot: 0 })
            } else if learned[1] is None {
                Err(PokedexError::MoveNotLearnable { slot: 1 })
            } else if learned[2] is None {
                Err(PokedexError::MoveNotLearnable { slot: 2 })
            } else if learned[3] is None {
                Err(PokedexError::MoveNotLearnable { slot: 3 })
            } else if !stat_points.valid() {
                Err(PokedexError::InvalidPokemon(BattleError::InvalidStatPoints))
            } else {
                Ok((species, Seq::new(4, |k: int| learned[k]->0)))
            }
        },
    }
}

/// Builds a Pokemon holding no item from a species name and four move names.
pub fn build_pokemon_from_pokedex(
    species_name: &str,
    level: u8,
    stat_points: StatPoints,
    nature: Nature,
    move_names: [&str; 4],
) -> (r: Result<Pokemon, PokedexError>)
    ensures
        r matches Err(e) ==> build_outcome(species_name, stat_points, move_names) == Err::<(PokemonEntry, Seq<MoveEntry>), PokedexError>(e),
        r matches Ok(p) ==> build_outcome(species_name, stat_points, move_names) matches Ok((species, moves))
            && p.built_from(species, level, stat_points, nature, None, p.moves)
            && forall|k: int| 0 <= k < 4 ==> #[trigger] moves[k].describes(p.moves[k]),
        build_outcome(species_name, stat_points, move_names) is Ok ==> r is Ok,
{
    build_pokemon_from_pokedex_with_item(species_name, level, stat_points, nature, None, move_names)
}

/// Builds a Pokemon from a species name, an optional held item and four move names.
pub fn build_pokemon_from_pokedex_with_item(
    species_name: &str,
    level: u8,
    stat_points: StatPoints,
    nature: Nature,
    item: Option<HeldItem>,
    move_names: [&str; 4],
) -> (r: Result<Pokemon, PokedexError>)
    ensures
        r matches Err(e) ==> build_outcome(species_name, stat_points, move_names) == Err::<(PokemonEntry, Seq<MoveEntry>), PokedexError>(e),
        r matches Ok(p) ==> build_outcome(species_name, stat_points, move_names) matches Ok((species, moves))
            && p.built_from(species, level, stat_points, nature, item, p.moves)
            && forall|k: int| 0 <= k < 4 ==> #[trigger] moves[k].describes(p.moves[k]),
        build_outcome(species_name, stat_points, move_names) is Ok ==> r is Ok,
{
    let species = match find_pokemon(species_name) {
        Some(s) => s,
        None => return Err(PokedexError::PokemonNotFound),
    };
    let m0 = find_learnable_move(&species, move_names[0], 0)?;
    let m1 = find_learnable_move(&species, move_names[1], 1)?;
    let m2 = find_learnable_move(&species, move_names[2], 2)?;
    let m3 = find_learnable_move(&species, move_names[3], 3)?;
    let moves = [m0.to_move(), m1.to_move(), m2.to_move(), m3.to_move()];
    match Pokemon::new(&species, level, stat_points, nature, item, moves) {
        Ok(p) => Ok(p),
        Err(e) => Err(PokedexError::from(e)),
    }
}

} // verus!
