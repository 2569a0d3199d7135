//! Rules, Pokemon data types, stat formulas and the type chart.
use vstd::prelude::*;
use crate::damage::Fraction;
use crate::pokedex::PokemonEntry;
use crate::text::{eq_ignore_ascii_case, names_match};

verus! {

#[derive(Debug, Clone, Copy, PartialEq, Eq, Structural)]
pub enum BattleFormat {
    Singles,
    Doubles,
}

#[derive(Debug, Clone, Copy, PartialEq, Eq, Structural)]
pub enum BattleMode {
    Ranked,
    Casual,
}

#[derive(Debug, Clone, Copy, PartialEq, Eq, Structural)]
pub enum BattleMechanic {
    NoMechanic,
    MegaEvolution,
}

#[derive(Debug, Clone, Copy, PartialEq, Eq, Structural)]
pub struct ChampionsRules {
    pub format: BattleFormat,
    pub mode: BattleMode,
    pub level_cap: u8,
    pub team_size: u8,
    pub selected_team_size: u8,
    pub mechanic: BattleMechanic,
    pub mega_stones_enabled: bool,
}

impl ChampionsRules {
    /// Ranked singles: six-Pokemon rosters, three selected, level 50, Mega Evolution.
    pub fn singles() -> (r: Self)
        ensures
            r == (ChampionsRules {
                format: BattleFormat::Singles,
                mode: BattleMode::Ranked,
                level_cap: 50,
                team_size: 6,
                selected_team_size: 3,
                mechanic: BattleMechanic::MegaEvolution,
                mega_stones_enabled: true,
            }),
    {
        ChampionsRules {
            format: BattleFormat::Singles,
            mode: BattleMode::Ranked,
            level_cap: 50,
            team_size: 6,
            selected_team_size: 3,
            mechanic: BattleMechanic::MegaEvolution,
            mega_stones_enabled: true,
        }
    }

    /// Ranked doubles: six-Pokemon rosters, four selected, level 50, Mega Evolution.
    pub fn ranked_doubles() -> (r: Self)
        ensures
            r == (ChampionsRules {
                format: BattleFormat::Doubles,
                mode: BattleMode::Ranked,
                level_cap: 50,
                team_size: 6,
                selected_team_size: 4,
                mechanic: BattleMechanic::MegaEvolution,
                mega_stones_enabled: true,
            }),
    {
        ChampionsRules {
            format: BattleFormat::Doubles,
            mode: BattleMode::Ranked,
            level_cap: 50,
            team_size: 6,
            selected_team_size: 4,
            mechanic: BattleMechanic::MegaEvolution,
            mega_stones_enabled: true,
        }
    }

    /// Casual singles: three-Pokemon rosters, all three selected, level 50, Mega Evolution.
    pub fn casual_singles() -> (r: Self)
        ensures
            r == (ChampionsRules {
                format: BattleFormat::Singles,
                mode: BattleMode::Casual,
                level_cap: 50,
                team_size: 3,
                selected_team_size: 3,
                mechanic: BattleMechanic::MegaEvolution,
                mega_stones_enabled: true,
            }),
    {
        ChampionsRules {
            format: BattleFormat::Singles,
            mode: BattleMode::Casual,
            level_cap: 50,
            team_size: 3,
            selected_team_size: 3,
            mechanic: BattleMechanic::MegaEvolution,
            mega_stones_enabled: true,
        }
    }
}

#[derive(Debug, Clone, Copy, PartialEq, Eq, Structural)]
pub enum PokemonType {
    Normal,
    Fire,
    Water,
    Electric,
    Grass,
    Ice,
    Fighting,
    Poison,
    Ground,
    Flying,
    Psychic,
    Bug,
    Rock,
    GhostType,
    Dragon,
    Dark,
    Steel,
    Fairy,
}

#[derive(Debug, Clone, Copy, PartialEq, Eq, Structural)]
pub enum MoveCategory {
    Physical,
    Special,
    Status,
}

#[derive(Debug, Clone, Copy, PartialEq, Eq, Structural)]
pub struct Stats {
    pub hp: u16,
    pub attack: u16,
    pub defense: u16,
    pub special_attack: u16,
    pub special_defense: u16,
    pub speed: u16,
}

#[derive(Debug, Clone, Copy, PartialEq, Eq, Structural)]
pub struct StatPoints {
    pub hp: u8,
    pub attack: u8,
    pub defense: u8,
    pub special_attack: u8,
    pub special_defense: u8,
    pub speed: u8,
}

#[derive(Debug, Clone, Copy, PartialEq, Eq, Structural)]
pub enum StatName {
    Attack,
    Defense,
    SpecialAttack,
    SpecialDefense,
    Speed,
}

#[derive(Debug, Clone, Copy, PartialEq, Eq, Structural)]
pub enum Nature {
    Hardy,
    Docile,
    Serious,
    Bashful,
    Quirky,
    Lonely,
    Adamant,
    Naughty,
    Brave,
    Bold,
    Impish,
    Lax,
    Relaxed,
    Modest,
    Mild,
    Rash,
    Quiet,
    Calm,
    Gentle,
    Careful,
    Sassy,
    Timid,
    Hasty,
    Jolly,
    Naive,
}

impl Nature {
    /// The stat a nature raises by a tenth, if any.
    pub open spec fn raised(self) -> Option<StatName> {
        match self {
            Nature::Lonely | Nature::Adamant | Nature::Naughty | Nature::Brave => Some(
                StatName::Attack,
            ),
            Nature::Bold | Nature::Impish | Nature::Lax | Nature::Relaxed => Some(StatName::Defense),
            Nature::Modest | Nature::Mild | Nature::Rash | Nature::Quiet => Some(
                StatName::SpecialAttack,
            ),
            Nature::Calm | Nature::Gentle | Nature::Careful | Nature::Sassy => Some(
                StatName::SpecialDefense,
            ),
            Nature::Timid | Nature::Hasty | Nature::Jolly | Nature::Naive => Some(StatName::Speed),
            _ => None,
        }
    }

    /// The stat a nature lowers by a tenth, if any.
    pub open spec fn lowered(self) -> Option<StatName> {
        match self {
            Nature::Bold | Nature::Modest | Nature::Calm | Nature::Timid => Some(StatName::Attack),
            Nature::Lonely | Nature::Mild | Nature::Gentle | Nature::Hasty => Some(
                StatName::Defense,
            ),
            Nature::Adamant | Nature::Impish | Nature::Careful | Nature::Jolly => Some(
                StatName::SpecialAttack,
            ),
            Nature::Naughty | Nature::Lax | Nature::Rash | Nature::Naive => Some(
                StatName::SpecialDefense,
            ),
            Nature::Brave | Nature::Relaxed | Nature::Quiet | Nature::Sassy => Some(
                StatName::Speed,
            ),
            _ => None,
        }
    }

    /// The multiplier a nature applies to a stat: 11/10 when raised, 9/10 when lowered, else 1.
    pub open spec fn multiplier(self, stat: StatName) -> Fraction {
        if self.raised() == Some(stat) {
            Fraction { numerator: 11, denominator: 10 }
        } else if self.lowered() == Some(stat) {
            Fraction { numerator: 9, denominator: 10 }
        } else {
            Fraction { numerator: 1, denominator: 1 }
        }
    }

    /// A nature that changes no stat.
    pub fn neutral() -> (r: Self)
        ensures
            r == Nature::Hardy,
            r.raised() is None,
            r.lowered() is None,
    {
        Nature::Hardy
    }

    /// Returns the stat increased by this nature (+10%).
    pub fn increased(self) -> (r: Option<StatName>)
        ensures
            r == self.raised(),
    {
        match self {
            Nature::Lonely | Nature::Adamant | Nature::Naughty | Nature::Brave => Some(
                StatName::Attack,
            ),
            Nature::Bold | Nature::Impish | Nature::Lax | Nature::Relaxed => Some(StatName::Defense),
            Nature::Modest | Nature::Mild | Nature::Rash | Nature::Quiet => Some(
                StatName::SpecialAttack,
            ),
            Nature::Calm | Nature::Gentle | Nature::Careful | Nature::Sassy => Some(
                StatName::SpecialDefense,
            ),
            Nature::Timid | Nature::Hasty | Nature::Jolly | Nature::Naive => Some(StatName::Speed),
            Nature::Hardy | Nature::Docile | Nature::Serious | Nature::Bashful | Nature::Quirky => None,
        }
    }

    /// Returns the stat decreased by this nature (-10%).
    pub fn decreased(self) -> (r: Option<StatName>)
        ensures
            r == self.lowered(),
    {
        match self {
            Nature::Bold | Nature::Modest | Nature::Calm | Nature::Timid => Some(StatName::Attack),
            Nature::Lonely | Nature::Mild | Nature::Gentle | Nature::Hasty => Some(
                StatName::Defense,
            ),
            Nature::Adamant | Nature::Impish | Nature::Careful | Nature::Jolly => Some(
                StatName::SpecialAttack,
            ),
            Nature::Naughty | Nature::Lax | Nature::Rash | Nature::Naive => Some(
                StatName::SpecialDefense,
            ),
            Nature::Brave | Nature::Relaxed | Nature::Quiet | Nature::Sassy => Some(
                StatName::Speed,
            ),
            Nature::Hardy | Nature::Docile | Nature::Serious | Nature::Bashful | Nature::Quirky => None,
        }
    }

    /// Returns this nature's multiplier for a stat as an exact fraction (11/10, 9/10 or 1/1).
    pub fn multiplier_for(self, stat: StatName) -> (r: Fraction)
        ensures
            r == self.multiplier(stat),
    {
        let up = self.increased();
        let down = self.decreased();
        let raised = match up {
            Some(s) => s == stat,
            None => false,
        };
        let lowered = match down {
            Some(s) => s == stat,
            None => false,
        };
        if raised {
            Fraction::new(11, 10)
        } else if lowered {
            Fraction::new(9, 10)
        } else {
            Fraction::new(1, 1)
        }
    }
}

/// The nature table: the nature that raises one stat and lowers another, by rows of the
/// raised stat and columns of the lowered stat; a nature on the diagonal changes nothing.
pub open spec fn nature_table(raised: StatName, lowered: StatName) -> Nature {
    match (raised, lowered) {
        (StatName::Attack, StatName::Attack) => Nature::Hardy,
        (StatName::Attack, StatName::Defense) => Nature::Lonely,
        (StatName::Attack, StatName::SpecialAttack) => Nature::Adamant,
        (StatName::Attack, StatName::SpecialDefense) => Nature::Naughty,
        (StatName::Attack, StatName::Speed) => Nature::Brave,
        (StatName::Defense, StatName::Attack) => Nature::Bold,
        (StatName::Defense, StatName::Defense) => Nature::Docile,
        (StatName::Defense, StatName::SpecialAttack) => Nature::Impish,
        (StatName::Defense, StatName::SpecialDefense) => Nature::Lax,
        (StatName::Defense, StatName::Speed) => Nature::Relaxed,
        (StatName::SpecialAttack, StatName::Attack) => Nature::Modest,
        (StatName::SpecialAttack, StatName::Defense) => Nature::Mild,
        (StatName::SpecialAttack, StatName::SpecialAttack) => Nature::Bashful,
        (StatName::SpecialAttack, StatName::SpecialDefense) => Nature::Rash,
        (StatName::SpecialAttack, StatName::Speed) => Nature::Quiet,
        (StatName::SpecialDefense, StatName::Attack) => Nature::Calm,
        (StatName::SpecialDefense, StatName::Defense) => Nature::Gentle,
        (StatName::SpecialDefense, StatName::SpecialAttack) => Nature::Careful,
        (StatName::SpecialDefense, StatName::SpecialDefense) => Nature::Quirky,
        (StatName::SpecialDefense, StatName::Speed) => Nature::Sassy,
        (StatName::Speed, StatName::Attack) => Nature::Timid,
        (StatName::Speed, StatName::Defense) => Nature::Hasty,
        (StatName::Speed, StatName::SpecialAttack) => Nature::Jolly,
        (StatName::Speed, StatName::SpecialDefense) => Nature::Naive,
        (StatName::Speed, StatName::Speed) => Nature::Serious,
    }
}

/// Each nature raises and lowers the stats its place in the nature table gives: off the
/// diagonal it raises its row's stat by a tenth (11/10) and lowers its column's stat by a
/// tenth (9/10), leaving the other stats at 1/1; on the diagonal it changes nothing. Every
/// nature that changes a stat has such a place.
pub proof fn lemma_natures_follow_the_table(raised: StatName, lowered: StatName, stat: StatName, n: Nature)
    ensures
        raised != lowered ==> nature_table(raised, lowered).raised() == Some(raised) && nature_table(
            raised,
            lowered,
        ).lowered() == Some(lowered),
        raised == lowered ==> nature_table(raised, lowered).raised() is None && nature_table(
            raised,
            lowered,
        ).lowered() is None,
        raised != lowered ==> nature_table(raised, lowered).multiplier(stat) == (if stat == raised {
            Fraction { numerator: 11, denominator: 10 }
        } else if stat == lowered {
            Fraction { numerator: 9, denominator: 10 }
        } else {
            Fraction { numerator: 1, denominator: 1 }
        }),
        n.raised() matches Some(r) ==> n.lowered() matches Some(l) && nature_table(r, l) == n,
        n.raised() is None <==> n.lowered() is None,
{
}

/// A stat after a nature multiplier, rounded down and capped at `u16::MAX`.
pub open spec fn natured_stat(value: u16, multiplier: Fraction) -> u16 {
    let v = value * multiplier.numerator / multiplier.denominator as int;
    if v > u16::MAX {
        u16::MAX
    } else {
        v as u16
    }
}

fn apply_multiplier(value: u16, nature: Nature, stat: StatName) -> (r: u16)
    ensures
        r == natured_stat(value, nature.multiplier(stat)),
{
    let m = nature.multiplier_for(stat);
    assert((value as u64) * m.numerator <= 65535 * 11) by (nonlinear_arith)
        requires
            value <= 65535,
            m.numerator <= 11,
    ;
    let v: u64 = (value as u64) * m.numerator / m.denominator;
    if v > 65535 {
        65535
    } else {
        v as u16
    }
}

impl Stats {
    pub fn new(
        hp: u16,
        attack: u16,
        defense: u16,
        special_attack: u16,
        special_defense: u16,
        speed: u16,
    ) -> (r: Self)
        ensures
            r == (Stats { hp, attack, defense, special_attack, special_defense, speed }),
    {
        Stats { hp, attack, defense, special_attack, special_defense, speed }
    }

    /// The stats after a nature's modifier: HP is unchanged, every other stat is
    /// scaled by the nature's multiplier, rounded down and capped at `u16::MAX`.
    pub open spec fn with_nature(self, nature: Nature) -> Stats {
        Stats {
            hp: self.hp,
            attack: natured_stat(self.attack, nature.multiplier(StatName::Attack)),
            defense: natured_stat(self.defense, nature.multiplier(StatName::Defense)),
            special_attack: natured_stat(self.special_attack, nature.multiplier(StatName::SpecialAttack)),
            special_defense: natured_stat(self.special_defense, nature.multiplier(StatName::SpecialDefense)),
            speed: natured_stat(self.speed, nature.multiplier(StatName::Speed)),
        }
    }

    /// Applies the nature modifier (11/10 or 9/10) and returns the adjusted stats.
    pub fn apply_nature(self, nature: Nature) -> (r: Self)
        ensures
            r == self.with_nature(nature),
    {
        Stats {
            hp: self.hp,
            attack: apply_multiplier(self.attack, nature, StatName::Attack),
            defense: apply_multiplier(self.defense, nature, StatName::Defense),
            special_attack: apply_multiplier(self.special_attack, nature, StatName::SpecialAttack),
            special_defense: apply_multiplier(self.special_defense, nature, StatName::SpecialDefense),
            speed: apply_multiplier(self.speed, nature, StatName::Speed),
        }
    }
}

pub const STAT_POINTS_MAX_TOTAL: u8 = 66;
pub const STAT_POINTS_MAX_PER_STAT: u8 = 32;

impl StatPoints {
    pub open spec fn sum(self) -> int {
        self.hp + self.attack + self.defense + self.special_attack + self.special_defense
            + self.speed
    }

    /// Champions allows at most 66 points in total and at most 32 in any one stat.
    pub open spec fn valid(self) -> bool {
        &&& self.sum() <= STAT_POINTS_MAX_TOTAL
        &&& self.hp <= STAT_POINTS_MAX_PER_STAT
        &&& self.attack <= STAT_POINTS_MAX_PER_STAT
        &&& self.defense <= STAT_POINTS_MAX_PER_STAT
        &&& self.special_attack <= STAT_POINTS_MAX_PER_STAT
        &&& self.special_defense <= STAT_POINTS_MAX_PER_STAT
        &&& self.speed <= STAT_POINTS_MAX_PER_STAT
    }

    /// The Champions limits, stated on the six stats directly: every stat, Speed included,
    /// gets at most 32 points, and the six together at most 66.
    pub proof fn lemma_stat_point_limits(self)
        ensures
            self.valid() <==> {
                &&& self.hp <= 32
                &&& self.attack <= 32
                &&& self.defense <= 32
                &&& self.special_attack <= 32
                &&& self.special_defense <= 32
                &&& self.speed <= 32
                &&& self.hp + self.attack + self.defense + self.special_attack + self.special_defense + self.speed
                    <= 66
            },
    {
    }

    pub fn total(self) -> (r: u16)
        ensures
            r == self.sum(),
    {
        self.hp as u16 + self.attack as u16 + self.defense as u16 + self.special_attack as u16
            + self.special_defense as u16 + self.speed as u16
    }

    pub fn is_valid_for_champions(self) -> (r: bool)
        ensures
            r == self.valid(),
    {
        self.total() <= STAT_POINTS_MAX_TOTAL as u16 && self.hp <= STAT_POINTS_MAX_PER_STAT
            && self.attack <= STAT_POINTS_MAX_PER_STAT && self.defense <= STAT_POINTS_MAX_PER_STAT
            && self.special_attack <= STAT_POINTS_MAX_PER_STAT
            && self.special_defense <= STAT_POINTS_MAX_PER_STAT
            && self.speed <= STAT_POINTS_MAX_PER_STAT
    }
}


#[derive(Debug, Clone, Copy, PartialEq, Eq, Structural)]
pub enum MegaStone {
    CharizarditeX,
    CharizarditeY,
    Venusaurite,
    Blastoisinite,
    Gengarite,
    Lucarionite,
}

#[derive(Debug, Clone, Copy, PartialEq, Eq, Structural)]
pub enum HeldItem {
    MegaStone(MegaStone),
}

impl MegaStone {
    /// The species that can Mega Evolve while holding this stone.
    pub open spec fn species(self) -> &'static str {
        match self {
            MegaStone::CharizarditeX | MegaStone::CharizarditeY => "Charizard",
            MegaStone::Venusaurite => "Venusaur",
            MegaStone::Blastoisinite => "Blastoise",
            MegaStone::Gengarite => "Gengar",
            MegaStone::Lucarionite => "Lucario",
        }
    }

    pub fn compatible_species(self) -> (r: &'static str)
        ensures
            r == self.species(),
    {
        match self {
            MegaStone::CharizarditeX | MegaStone::CharizarditeY => "Charizard",
            MegaStone::Venusaurite => "Venusaur",
            MegaStone::Blastoisinite => "Blastoise",
            MegaStone::Gengarite => "Gengar",
            MegaStone::Lucarionite => "Lucario",
        }
    }
}

impl HeldItem {
    /// Whether this item is a Mega Stone for the named species (names compared ignoring ASCII case).
    pub open spec fn enables_mega_for(self, species_name: &str) -> bool {
        match self {
            HeldItem::MegaStone(stone) => names_match(stone.species(), species_name),
        }
    }

    pub fn is_mega_stone_for(self, species_name: &str) -> (r: bool)
        ensures
            r == self.enables_mega_for(species_name),
    {
        match self {
            HeldItem::MegaStone(stone) => eq_ignore_ascii_case(stone.compatible_species(), species_name),
        }
    }
}

#[derive(Debug, Clone, PartialEq, Eq)]
pub struct Move {
    pub name: String,
    pub move_type: PokemonType,
    pub category: MoveCategory,
    pub power: u16,
    pub accuracy: Option<u8>,
    pub priority: i8,
}

impl Move {
    pub fn new(
        name: &str,
        move_type: PokemonType,
        category: MoveCategory,
        power: u16,
        accuracy: Option<u8>,
        priority: i8,
    ) -> (r: Self)
        ensures
            r.name@ == name@,
            r.move_type == move_type,
            r.category == category,
            r.power == power,
            r.accuracy == accuracy,
            r.priority == priority,
    {
        Move { name: name.to_owned(), move_type, category, power, accuracy, priority }
    }
}

#[derive(Debug, Clone, Copy, PartialEq, Eq, Structural)]
pub enum BattleError {
    InvalidMoveIndex { index: usize },
    InvalidStatPoints,
    InvalidDamageModifier,
    InvalidDamageRandomRawRoll { raw_roll: u8 },
    ZeroDefenseStat,
    InvalidDamageRandomPercent { percent: u8 },
    FaintedPokemonCannotAttack,
    FaintedPokemonCannotBeTargeted,
    FaintedPokemonCannotBattle,
}

/// Maximum HP at a level: `(2 * base + 31 + 2 * points) * level / 100 + 10 + level`,
/// truncated to `u16`.
pub open spec fn max_hp(base_hp: u16, level: u8, stat_points: u8) -> u16 {
    (((2 * base_hp + 31 + 2 * stat_points) * level) / 100 + 10 + level) as u16
}

/// A non-HP stat at a level before the nature: `(2 * base + 31 + 2 * points) * level / 100 + 5`,
/// capped at `u16::MAX`.
pub open spec fn level_stat(base: u16, level: u8, stat_points: u8) -> u16 {
    let v = ((2 * base + 31 + 2 * stat_points) * level) / 100 + 5;
    if v > u16::MAX {
        u16::MAX
    } else {
        v as u16
    }
}

/// The battle stats of a Pokemon with these base stats, level, stat points and nature.
pub open spec fn battle_stats(base: Stats, level: u8, points: StatPoints, nature: Nature) -> Stats {
    Stats {
        hp: max_hp(base.hp, level, points.hp),
        attack: level_stat(base.attack, level, points.attack),
        defense: level_stat(base.defense, level, points.defense),
        special_attack: level_stat(base.special_attack, level, points.special_attack),
        special_defense: level_stat(base.special_defense, level, points.special_defense),
        speed: level_stat(base.speed, level, points.speed),
    }.with_nature(nature)
}

pub fn calculate_max_hp(base_hp: u16, level: u8, stat_points: u8) -> (r: u16)
    ensures
        r == max_hp(base_hp, level, stat_points),
{
    let sum: u32 = 2 * (base_hp as u32) + 31 + 2 * (stat_points as u32);
    assert(sum * (level as u32) <= 131611 * 255) by (nonlinear_arith)
        requires
            sum <= 131611,
            level <= 255,
    ;
    let numerator: u32 = sum * (level as u32);
    (numerator / 100 + 10 + level as u32) as u16
}

/// Computes a non-HP stat at a level, before the nature modifier.
pub fn calculate_level_stat(base: u16, level: u8, stat_points: u8) -> (r: u16)
    ensures
        r == level_stat(base, level, stat_points),
{
    let sum: u32 = 2 * (base as u32) + 31 + 2 * (stat_points as u32);
    assert(sum * (level as u32) <= 131611 * 255) by (nonlinear_arith)
        requires
            sum <= 131611,
            level <= 255,
    ;
    let v: u32 = sum * (level as u32) / 100 + 5;
    if v > 65535 {
        65535
    } else {
        v as u16
    }
}

/// Computes battle stats from base stats, level, stat points and nature.
pub fn calculate_stats(base: Stats, level: u8, points: StatPoints, nature: Nature) -> (r: Stats)
    ensures
        r == battle_stats(base, level, points, nature),
{
    let raw = Stats {
        hp: calculate_max_hp(base.hp, level, points.hp),
        attack: calculate_level_stat(base.attack, level, points.attack),
        defense: calculate_level_stat(base.defense, level, points.defense),
        special_attack: calculate_level_stat(base.special_attack, level, points.special_attack),
        special_defense: calculate_level_stat(base.special_defense, level, points.special_defense),
        speed: calculate_level_stat(base.speed, level, points.speed),
    };
    raw.apply_nature(nature)
}

#[derive(Debug, Clone, PartialEq, Eq)]
pub struct Pokemon {
    pub entry: PokemonEntry,
    pub level: u8,
    pub stats: Stats,
    pub stat_points: StatPoints,
    pub nature: Nature,
    pub ability: Option<String>,
    pub item: Option<HeldItem>,
    pub moves: [Move; 4],
    pub current_hp: u16,
    pub can_mega_evolve: bool,
    pub has_mega_evolved: bool,
}

/// A Pokemon described directly by its final battle stats, without the Pokedex.
#[derive(Debug, Clone, PartialEq, Eq)]
pub struct PokemonSpec {
    pub name: &'static str,
    pub level: u8,
    pub primary_type: PokemonType,
    pub secondary_type: Option<PokemonType>,
    /// The final battle stats, used as they are.
    pub stats: Stats,
    pub stat_points: StatPoints,
    pub nature: Nature,
    pub moves: [Move; 4],
}

impl Pokemon {
    /// What `Pokemon::new` builds from valid inputs.
    pub open spec fn built_from(
        self,
        entry: PokemonEntry,
        level: u8,
        stat_points: StatPoints,
        nature: Nature,
        item: Option<HeldItem>,
        moves: [Move; 4],
    ) -> bool {
        &&& self.entry == entry
        &&& self.level == level
        &&& self.stats == battle_stats(entry.base_stats, level, stat_points, nature)
        &&& self.stat_points == stat_points
        &&& self.nature == nature
        &&& self.ability is None
        &&& self.item == item
        &&& self.moves == moves
        &&& self.current_hp == self.stats.hp
        &&& self.can_mega_evolve == (match item {
            Some(i) => i.enables_mega_for(entry.name),
            None => false,
        })
        &&& !self.has_mega_evolved
    }

    /// Builds a level-`level` Pokemon of a species, rejecting stat points that break the
    /// Champions limits. It starts at full HP.
    pub fn new(
        entry: &PokemonEntry,
        level: u8,
        stat_points: StatPoints,
        nature: Nature,
        item: Option<HeldItem>,
        moves: [Move; 4],
    ) -> (r: Result<Self, BattleError>)
        ensures
            !stat_points.valid() <==> r == Err::<Self, BattleError>(BattleError::InvalidStatPoints),
            stat_points.valid() <==> r is Ok,
            r matches Ok(p) ==> p.built_from(*entry, level, stat_points, nature, item, moves),
    {
        if !stat_points.is_valid_for_champions() {
            return Err(BattleError::InvalidStatPoints);
        }
        let stats = calculate_stats(entry.base_stats, level, stat_points, nature);
        let can_mega_evolve = match item {
            Some(i) => i.is_mega_stone_for(entry.name),
            None => false,
        };
        Ok(Pokemon {
            entry: *entry,
            level,
            stats,
            stat_points,
            nature,
            ability: None,
            item,
            moves,
            current_hp: stats.hp,
            can_mega_evolve,
            has_mega_evolved: false,
        })
    }

    /// Builds a Pokemon from a specification, rejecting stat points that break the Champions
    /// limits. Its stats are the specification's stats as they are, it starts at their HP, and
    /// it holds no item. The species record it carries has these stats and learns no move.
    pub fn from_spec(spec: PokemonSpec) -> (r: Result<Self, BattleError>)
        ensures
            !spec.stat_points.valid() <==> r == Err::<Self, BattleError>(BattleError::InvalidStatPoints),
            spec.stat_points.valid() <==> r is Ok,
            r matches Ok(p) ==> {
                &&& p.entry.name == spec.name
                &&& p.entry.primary_type == spec.primary_type
                &&& p.entry.secondary_type == spec.secondary_type
                &&& p.entry.base_stats == spec.stats
                &&& p.entry.learnset@.len() == 0
                &&& p.level == spec.level
                &&& p.stats == spec.stats
                &&& p.stat_points == spec.stat_points
                &&& p.nature == spec.nature
                &&& p.ability is None
                &&& p.item is None
                &&& p.moves == spec.moves
                &&& p.current_hp == spec.stats.hp
                &&& !p.can_mega_evolve
                &&& !p.has_mega_evolved
            },
    {
        if !spec.stat_points.is_valid_for_champions() {
            return Err(BattleError::InvalidStatPoints);
        }
        let entry = PokemonEntry {
            name: spec.name,
            primary_type: spec.primary_type,
            secondary_type: spec.secondary_type,
            base_stats: spec.stats,
            learnset: &[],
        };
        Ok(Pokemon {
            entry,
            level: spec.level,
            stats: spec.stats,
            stat_points: spec.stat_points,
            nature: spec.nature,
            ability: None,
            item: None,
            moves: spec.moves,
            current_hp: spec.stats.hp,
            can_mega_evolve: false,
            has_mega_evolved: false,
        })
    }

    pub open spec fn fainted(&self) -> bool {
        self.current_hp == 0
    }

    pub fn is_fainted(&self) -> (r: bool)
        ensures
            r == self.fainted(),
    {
        self.current_hp == 0
    }

    /// Whether the Pokemon's species has this type as its primary or secondary type.
    pub open spec fn of_type(&self, t: PokemonType) -> bool {
        self.entry.primary_type == t || self.entry.secondary_type == Some(t)
    }

    pub fn has_type(&self, pokemon_type: PokemonType) -> (r: bool)
        ensures
            r == self.of_type(pokemon_type),
    {
        self.entry.primary_type == pokemon_type || match self.entry.secondary_type {
            Some(t) => t == pokemon_type,
            None => false,
        }
    }
}

/// The type chart: how strongly a move of `attack` type hits a `defense`-typed target,
/// in quarters (0 no effect, 2 not very effective, 4 neutral, 8 super effective).
pub open spec fn chart_quarters(attack: PokemonType, defense: PokemonType) -> u64 {
    match (attack, defense) {
        (PokemonType::Normal, PokemonType::Rock | PokemonType::Steel) => 2,
        (PokemonType::Normal, PokemonType::GhostType) => 0,
        (PokemonType::Fire, PokemonType::Fire | PokemonType::Water | PokemonType::Rock | PokemonType::Dragon) => 2,
        (PokemonType::Fire, PokemonType::Grass | PokemonType::Ice | PokemonType::Bug | PokemonType::Steel) => 8,
        (PokemonType::Water, PokemonType::Water | PokemonType::Grass | PokemonType::Dragon) => 2,
        (PokemonType::Water, PokemonType::Fire | PokemonType::Ground | PokemonType::Rock) => 8,
        (PokemonType::Electric, PokemonType::Electric | PokemonType::Grass | PokemonType::Dragon) => 2,
        (PokemonType::Electric, PokemonType::Water | PokemonType::Flying) => 8,
        (PokemonType::Electric, PokemonType::Ground) => 0,
        (PokemonType::Grass, PokemonType::Fire | PokemonType::Grass | PokemonType::Poison | PokemonType::Flying | PokemonType::Bug | PokemonType::Dragon | PokemonType::Steel) => 2,
        (PokemonType::Grass, PokemonType::Water | PokemonType::Ground | PokemonType::Rock) => 8,
        (PokemonType::Ice, PokemonType::Fire | PokemonType::Water | PokemonType::Ice | PokemonType::Steel) => 2,
        (PokemonType::Ice, PokemonType::Grass | PokemonType::Ground | PokemonType::Flying | PokemonType::Dragon) => 8,
        (PokemonType::Fighting, PokemonType::Poison | PokemonType::Flying | PokemonType::Psychic | PokemonType::Bug | PokemonType::Fairy) => 2,
        (PokemonType::Fighting, PokemonType::Normal | PokemonType::Ice | PokemonType::Rock | PokemonType::Dark | PokemonType::Steel) => 8,
        (PokemonType::Fighting, PokemonType::GhostType) => 0,
        (PokemonType::Poison, PokemonType::Poison | PokemonType::Ground | PokemonType::Rock | PokemonType::GhostType) => 2,
        (PokemonType::Poison, PokemonType::Grass | PokemonType::Fairy) => 8,
        (PokemonType::Poison, PokemonType::Steel) => 0,
        (PokemonType::Ground, PokemonType::Grass | PokemonType::Bug) => 2,
        (PokemonType::Ground, PokemonType::Fire | PokemonType::Electric | PokemonType::Poison | PokemonType::Rock | PokemonType::Steel) => 8,
        (PokemonType::Ground, PokemonType::Flying) => 0,
        (PokemonType::Flying, PokemonType::Electric | PokemonType::Rock | PokemonType::Steel) => 2,
        (PokemonType::Flying, PokemonType::Grass | PokemonType::Fighting | PokemonType::Bug) => 8,
        (PokemonType::Psychic, PokemonType::Psychic | PokemonType::Steel) => 2,
        (PokemonType::Psychic, PokemonType::Fighting | PokemonType::Poison) => 8,
        (PokemonType::Psychic, PokemonType::Dark) => 0,
        (PokemonType::Bug, PokemonType::Fire | PokemonType::Fighting | PokemonType::Poison | PokemonType::Flying | PokemonType::GhostType | PokemonType::Steel | PokemonType::Fairy) => 2,
        (PokemonType::Bug, PokemonType::Grass | PokemonType::Psychic | PokemonType::Dark) => 8,
        (PokemonType::Rock, PokemonType::Fighting | PokemonType::Ground | PokemonType::Steel) => 2,
        (PokemonType::Rock, PokemonType::Fire | PokemonType::Ice | PokemonType::Flying | PokemonType::Bug) => 8,
        (PokemonType::GhostType, PokemonType::Dark) => 2,
        (PokemonType::GhostType, PokemonType::Psychic | PokemonType::GhostType) => 8,
        (PokemonType::GhostType, PokemonType::Normal) => 0,
        (PokemonType::Dragon, PokemonType::Steel) => 2,
        (PokemonType::Dragon, PokemonType::Dragon) => 8,
        (PokemonType::Dragon, PokemonType::Fairy) => 0,
        (PokemonType::Dark, PokemonType::Fighting | PokemonType::Dark | PokemonType::Fairy) => 2,
        (PokemonType::Dark, PokemonType::Psychic | PokemonType::GhostType) => 8,
        (PokemonType::Steel, PokemonType::Fire | PokemonType::Water | PokemonType::Electric | PokemonType::Steel) => 2,
        (PokemonType::Steel, PokemonType::Ice | PokemonType::Rock | PokemonType::Fairy) => 8,
        (PokemonType::Fairy, PokemonType::Fire | PokemonType::Poison | PokemonType::Steel) => 2,
        (PokemonType::Fairy, PokemonType::Fighting | PokemonType::Dragon | PokemonType::Dark) => 8,
        _ => 4,
    }
}

/// The attacking types a defending type is weak to (they hit it twice as hard).
pub open spec fn weak_to(defense: PokemonType, attack: PokemonType) -> bool {
    match defense {
        PokemonType::Normal => attack == PokemonType::Fighting,
        PokemonType::Fire => attack == PokemonType::Water || attack == PokemonType::Ground || attack == PokemonType::Rock,
        PokemonType::Water => attack == PokemonType::Electric || attack == PokemonType::Grass,
        PokemonType::Electric => attack == PokemonType::Ground,
        PokemonType::Grass => attack == PokemonType::Fire || attack == PokemonType::Ice || attack == PokemonType::Poison || attack == PokemonType::Flying || attack == PokemonType::Bug,
        PokemonType::Ice => attack == PokemonType::Fire || attack == PokemonType::Fighting || attack == PokemonType::Rock || attack == PokemonType::Steel,
        PokemonType::Fighting => attack == PokemonType::Flying || attack == PokemonType::Psychic || attack == PokemonType::Fairy,
        PokemonType::Poison => attack == PokemonType::Ground || attack == PokemonType::Psychic,
        PokemonType::Ground => attack == PokemonType::Water || attack == PokemonType::Grass || attack == PokemonType::Ice,
        PokemonType::Flying => attack == PokemonType::Electric || attack == PokemonType::Ice || attack == PokemonType::Rock,
        PokemonType::Psychic => attack == PokemonType::Bug || attack == PokemonType::GhostType || attack == PokemonType::Dark,
        PokemonType::Bug => attack == PokemonType::Fire || attack == PokemonType::Flying || attack == PokemonType::Rock,
        PokemonType::Rock => attack == PokemonType::Water || attack == PokemonType::Grass || attack == PokemonType::Fighting || attack == PokemonType::Ground || attack == PokemonType::Steel,
        PokemonType::GhostType => attack == PokemonType::GhostType || attack == PokemonType::Dark,
        PokemonType::Dragon => attack == PokemonType::Ice || attack == PokemonType::Dragon || attack == PokemonType::Fairy,
        PokemonType::Dark => attack == PokemonType::Fighting || attack == PokemonType::Bug || attack == PokemonType::Fairy,
        PokemonType::Steel => attack == PokemonType::Fire || attack == PokemonType::Fighting || attack == PokemonType::Ground,
        PokemonType::Fairy => attack == PokemonType::Poison || attack == PokemonType::Steel,
    }
}

/// The attacking types a defending type resists (they hit it half as hard).
pub open spec fn resists(defense: PokemonType, attack: PokemonType) -> bool {
    match defense {
        PokemonType::Normal => false,
        PokemonType::Fire => attack == PokemonType::Fire || attack == PokemonType::Grass || attack == PokemonType::Ice || attack == PokemonType::Bug || attack == PokemonType::Steel || attack == PokemonType::Fairy,
        PokemonType::Water => attack == PokemonType::Fire || attack == PokemonType::Water || attack == PokemonType::Ice || attack == PokemonType::Steel,
        PokemonType::Electric => attack == PokemonType::Electric || attack == PokemonType::Flying || attack == PokemonType::Steel,
        PokemonType::Grass => attack == PokemonType::Water || attack == PokemonType::Electric || attack == PokemonType::Grass || attack == PokemonType::Ground,
        PokemonType::Ice => attack == PokemonType::Ice,
        PokemonType::Fighting => attack == PokemonType::Bug || attack == PokemonType::Rock || attack == PokemonType::Dark,
        PokemonType::Poison => attack == PokemonType::Grass || attack == PokemonType::Fighting || attack == PokemonType::Poison || attack == PokemonType::Bug || attack == PokemonType::Fairy,
        PokemonType::Ground => attack == PokemonType::Poison || attack == PokemonType::Rock,
        PokemonType::Flying => attack == PokemonType::Grass || attack == PokemonType::Fighting || attack == PokemonType::Bug,
        PokemonType::Psychic => attack == PokemonType::Fighting || attack == PokemonType::Psychic,
        PokemonType::Bug => attack == PokemonType::Grass || attack == PokemonType::Fighting || attack == PokemonType::Ground,
        PokemonType::Rock => attack == PokemonType::Normal || attack == PokemonType::Fire || attack == PokemonType::Poison || attack == PokemonType::Flying,
        PokemonType::GhostType => attack == PokemonType::Poison || attack == PokemonType::Bug,
        PokemonType::Dragon => attack == PokemonType::Fire || attack == PokemonType::Water || attack == PokemonType::Electric || attack == PokemonType::Grass,
        PokemonType::Dark => attack == PokemonType::GhostType || attack == PokemonType::Dark,
        PokemonType::Steel => attack == PokemonType::Normal || attack == PokemonType::Grass || attack == PokemonType::Ice || attack == PokemonType::Flying || attack == PokemonType::Psychic || attack == PokemonType::Bug || attack == PokemonType::Rock || attack == PokemonType::Dragon || attack == PokemonType::Steel || attack == PokemonType::Fairy,
        PokemonType::Fairy => attack == PokemonType::Fighting || attack == PokemonType::Bug || attack == PokemonType::Dark,
    }
}

/// The attacking types a defending type is immune to (they have no effect).
pub open spec fn immune_to(defense: PokemonType, attack: PokemonType) -> bool {
    match defense {
        PokemonType::Normal => attack == PokemonType::GhostType,
        PokemonType::Fire => false,
        PokemonType::Water => false,
        PokemonType::Electric => false,
        PokemonType::Grass => false,
        PokemonType::Ice => false,
        PokemonType::Fighting => false,
        PokemonType::Poison => false,
        PokemonType::Ground => attack == PokemonType::Electric,
        PokemonType::Flying => attack == PokemonType::Ground,
        PokemonType::Psychic => false,
        PokemonType::Bug => false,
        PokemonType::Rock => false,
        PokemonType::GhostType => attack == PokemonType::Normal || attack == PokemonType::Fighting,
        PokemonType::Dragon => false,
        PokemonType::Dark => attack == PokemonType::Psychic,
        PokemonType::Steel => attack == PokemonType::Poison,
        PokemonType::Fairy => attack == PokemonType::Dragon,
    }
}
/// The type chart agrees entry by entry with the defending types' weaknesses, resistances and
/// immunities: 0 quarters for an immunity, 8 for a weakness, 2 for a resistance, 4 otherwise.
pub proof fn lemma_type_chart_by_defender(attack: PokemonType, defense: PokemonType)
    ensures
        chart_quarters(attack, defense) == (if immune_to(defense, attack) {
            0u64
        } else if weak_to(defense, attack) {
            8u64
        } else if resists(defense, attack) {
            2u64
        } else {
            4u64
        }),
        immune_to(defense, attack) ==> !weak_to(defense, attack) && !resists(defense, attack),
        weak_to(defense, attack) ==> !resists(defense, attack),
{
}


/// The exact fraction for an effectiveness given in quarters.
pub open spec fn quarters_fraction(q: u64) -> Fraction {
    if q == 0 {
        Fraction { numerator: 0, denominator: 1 }
    } else if q == 1 {
        Fraction { numerator: 1, denominator: 4 }
    } else if q == 2 {
        Fraction { numerator: 1, denominator: 2 }
    } else if q == 8 {
        Fraction { numerator: 2, denominator: 1 }
    } else if q == 16 {
        Fraction { numerator: 4, denominator: 1 }
    } else {
        Fraction { numerator: 1, denominator: 1 }
    }
}

/// Effectiveness, in quarters, of a move type against a Pokemon with these types:
/// the product of the chart entries for each of its types.
pub open spec fn combined_quarters(
    attack: PokemonType,
    primary: PokemonType,
    secondary: Option<PokemonType>,
) -> u64 {
    match secondary {
        Some(s) => (chart_quarters(attack, primary) * chart_quarters(attack, s) / 4) as u64,
        None => chart_quarters(attack, primary),
    }
}

/// Every type chart entry is immune, resisted, neutral or super effective: 0, 2, 4 or 8 quarters.
pub proof fn lemma_chart_entries(attack: PokemonType, defense: PokemonType)
    ensures
        chart_quarters(attack, defense) == 0 || chart_quarters(attack, defense) == 2
            || chart_quarters(attack, defense) == 4 || chart_quarters(attack, defense) == 8,
{
}

/// Against any typing a move is 0, 1/4, 1/2, 1, 2 or 4 times effective, and immune exactly
/// when one of the defender's types is immune to it.
pub proof fn lemma_effectiveness_values(attack: PokemonType, primary: PokemonType, secondary: Option<PokemonType>)
    ensures
        ({
            let q = combined_quarters(attack, primary, secondary);
            q == 0 || q == 1 || q == 2 || q == 4 || q == 8 || q == 16
        }),
        combined_quarters(attack, primary, secondary) == 0 <==> chart_quarters(attack, primary) == 0 || (
        secondary matches Some(s) && chart_quarters(attack, s) == 0),
        quarters_fraction(combined_quarters(attack, primary, secondary)).denominator > 0,
{
    lemma_chart_entries(attack, primary);
    if let Some(s) = secondary {
        lemma_chart_entries(attack, s);
    }
}

/// Returns the single-type effectiveness as an exact fraction (0, 1/2, 1 or 2).
pub fn type_effectiveness(attack_type: PokemonType, defense_type: PokemonType) -> (r: Fraction)
    ensures
        r == quarters_fraction(chart_quarters(attack_type, defense_type)),
{
    match (attack_type, defense_type) {
        (PokemonType::Normal, PokemonType::Rock | PokemonType::Steel) => Fraction::new(1, 2),
        (PokemonType::Normal, PokemonType::GhostType) => Fraction::new(0, 1),
        (PokemonType::Fire, PokemonType::Fire | PokemonType::Water | PokemonType::Rock | PokemonType::Dragon) => Fraction::new(1, 2),
        (PokemonType::Fire, PokemonType::Grass | PokemonType::Ice | PokemonType::Bug | PokemonType::Steel) => Fraction::new(2, 1),
        (PokemonType::Water, PokemonType::Water | PokemonType::Grass | PokemonType::Dragon) => Fraction::new(1, 2),
        (PokemonType::Water, PokemonType::Fire | PokemonType::Ground | PokemonType::Rock) => Fraction::new(2, 1),
        (PokemonType::Electric, PokemonType::Electric | PokemonType::Grass | PokemonType::Dragon) => Fraction::new(1, 2),
        (PokemonType::Electric, PokemonType::Water | PokemonType::Flying) => Fraction::new(2, 1),
        (PokemonType::Electric, PokemonType::Ground) => Fraction::new(0, 1),
        (PokemonType::Grass, PokemonType::Fire | PokemonType::Grass | PokemonType::Poison | PokemonType::Flying | PokemonType::Bug | PokemonType::Dragon | PokemonType::Steel) => Fraction::new(1, 2),
        (PokemonType::Grass, PokemonType::Water | PokemonType::Ground | PokemonType::Rock) => Fraction::new(2, 1),
        (PokemonType::Ice, PokemonType::Fire | PokemonType::Water | PokemonType::Ice | PokemonType::Steel) => Fraction::new(1, 2),
        (PokemonType::Ice, PokemonType::Grass | PokemonType::Ground | PokemonType::Flying | PokemonType::Dragon) => Fraction::new(2, 1),
        (PokemonType::Fighting, PokemonType::Poison | PokemonType::Flying | PokemonType::Psychic | PokemonType::Bug | PokemonType::Fairy) => Fraction::new(1, 2),
        (PokemonType::Fighting, PokemonType::Normal | PokemonType::Ice | PokemonType::Rock | PokemonType::Dark | PokemonType::Steel) => Fraction::new(2, 1),
        (PokemonType::Fighting, PokemonType::GhostType) => Fraction::new(0, 1),
        (PokemonType::Poison, PokemonType::Poison | PokemonType::Ground | PokemonType::Rock | PokemonType::GhostType) => Fraction::new(1, 2),
        (PokemonType::Poison, PokemonType::Grass | PokemonType::Fairy) => Fraction::new(2, 1),
        (PokemonType::Poison, PokemonType::Steel) => Fraction::new(0, 1),
        (PokemonType::Ground, PokemonType::Grass | PokemonType::Bug) => Fraction::new(1, 2),
        (PokemonType::Ground, PokemonType::Fire | PokemonType::Electric | PokemonType::Poison | PokemonType::Rock | PokemonType::Steel) => Fraction::new(2, 1),
        (PokemonType::Ground, PokemonType::Flying) => Fraction::new(0, 1),
        (PokemonType::Flying, PokemonType::Electric | PokemonType::Rock | PokemonType::Steel) => Fraction::new(1, 2),
        (PokemonType::Flying, PokemonType::Grass | PokemonType::Fighting | PokemonType::Bug) => Fraction::new(2, 1),
        (PokemonType::Psychic, PokemonType::Psychic | PokemonType::Steel) => Fraction::new(1, 2),
        (PokemonType::Psychic, PokemonType::Fighting | PokemonType::Poison) => Fraction::new(2, 1),
        (PokemonType::Psychic, PokemonType::Dark) => Fraction::new(0, 1),
        (PokemonType::Bug, PokemonType::Fire | PokemonType::Fighting | PokemonType::Poison | PokemonType::Flying | PokemonType::GhostType | PokemonType::Steel | PokemonType::Fairy) => Fraction::new(1, 2),
        (PokemonType::Bug, PokemonType::Grass | PokemonType::Psychic | PokemonType::Dark) => Fraction::new(2, 1),
        (PokemonType::Rock, PokemonType::Fighting | PokemonType::Ground | PokemonType::Steel) => Fraction::new(1, 2),
        (PokemonType::Rock, PokemonType::Fire | PokemonType::Ice | PokemonType::Flying | PokemonType::Bug) => Fraction::new(2, 1),
        (PokemonType::GhostType, PokemonType::Dark) => Fraction::new(1, 2),
        (PokemonType::GhostType, PokemonType::Psychic | PokemonType::GhostType) => Fraction::new(2, 1),
        (PokemonType::GhostType, PokemonType::Normal) => Fraction::new(0, 1),
        (PokemonType::Dragon, PokemonType::Steel) => Fraction::new(1, 2),
        (PokemonType::Dragon, PokemonType::Dragon) => Fraction::new(2, 1),
        (PokemonType::Dragon, PokemonType::Fairy) => Fraction::new(0, 1),
        (PokemonType::Dark, PokemonType::Fighting | PokemonType::Dark | PokemonType::Fairy) => Fraction::new(1, 2),
        (PokemonType::Dark, PokemonType::Psychic | PokemonType::GhostType) => Fraction::new(2, 1),
        (PokemonType::Steel, PokemonType::Fire | PokemonType::Water | PokemonType::Electric | PokemonType::Steel) => Fraction::new(1, 2),
        (PokemonType::Steel, PokemonType::Ice | PokemonType::Rock | PokemonType::Fairy) => Fraction::new(2, 1),
        (PokemonType::Fairy, PokemonType::Fire | PokemonType::Poison | PokemonType::Steel) => Fraction::new(1, 2),
        (PokemonType::Fairy, PokemonType::Fighting | PokemonType::Dragon | PokemonType::Dark) => Fraction::new(2, 1),
        _ => Fraction::new(1, 1),
    }
}

fn chart_quarters_exec(attack_type: PokemonType, defense_type: PokemonType) -> (r: u64)
    ensures
        r == chart_quarters(attack_type, defense_type),
{
    let f = type_effectiveness(attack_type, defense_type);
    if f.numerator == 0 {
        0
    } else if f.denominator == 2 {
        2
    } else if f.numerator == 2 {
        8
    } else {
        4
    }
}

/// Returns the effectiveness of a move type against a Pokemon's typing as an exact fraction
/// (0, 1/4, 1/2, 1, 2 or 4).
pub fn type_effectiveness_against(attack_type: PokemonType, defender: &Pokemon) -> (r: Fraction)
    ensures
        r == quarters_fraction(
            combined_quarters(attack_type, defender.entry.primary_type, defender.entry.secondary_type),
        ),
{
    let primary = chart_quarters_exec(attack_type, defender.entry.primary_type);
    let q = match defender.entry.secondary_type {
        Some(s) => {
            let secondary = chart_quarters_exec(attack_type, s);
            primary * secondary / 4
        },
        None => primary,
    };
    if q == 0 {
        Fraction::new(0, 1)
    } else if q == 1 {
        Fraction::new(1, 4)
    } else if q == 2 {
        Fraction::new(1, 2)
    } else if q == 8 {
        Fraction::new(2, 1)
    } else if q == 16 {
        Fraction::new(4, 1)
    } else {
        Fraction::new(1, 1)
    }
}

} // verus!
