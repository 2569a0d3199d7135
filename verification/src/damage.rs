//! Damage calculation.
use vstd::prelude::*;
use crate::info::{BattleError, Move, MoveCategory, Pokemon, Stats, quarters_fraction, combined_quarters,
    lemma_effectiveness_values, type_effectiveness_against};
use vstd::arithmetic::div_mod::lemma_div_is_ordered;
use vstd::arithmetic::mul::lemma_mul_inequality;
use crate::roll::{seeded_roll, seeded_roll_value, thread_roll};

verus! {

/// The lowest and highest random percentage of the damage formula.
pub const MIN_DAMAGE_PERCENT: u8 = 85;
pub const MAX_DAMAGE_PERCENT: u8 = 100;

#[derive(Debug, Clone, Copy, PartialEq, Eq, Structural)]
pub struct Fraction {
    pub numerator: u64,
    pub denominator: u64,
}

impl Fraction {
    pub fn new(numerator: u64, denominator: u64) -> (r: Self)
        ensures
            r == (Fraction { numerator, denominator }),
    {
        Fraction { numerator, denominator }
    }

    /// The fraction 1/1.
    pub fn one() -> (r: Self)
        ensures
            r == (Fraction { numerator: 1, denominator: 1 }),
    {
        Fraction { numerator: 1, denominator: 1 }
    }

    /// The fraction 3/2.
    pub fn three_halves() -> (r: Self)
        ensures
            r == (Fraction { numerator: 3, denominator: 2 }),
    {
        Fraction { numerator: 3, denominator: 2 }
    }

    /// `value` scaled by this fraction, rounded down.
    pub open spec fn scale(self, value: int) -> int {
        value * self.numerator / self.denominator as int
    }

    fn apply_to(self, value: u64) -> (r: Result<u64, BattleError>)
        requires
            value * self.numerator <= u64::MAX,
        ensures
            self.denominator == 0 ==> r == Err::<u64, BattleError>(BattleError::InvalidDamageModifier),
            self.denominator != 0 ==> r == Ok::<u64, BattleError>(self.scale(value as int) as u64),
    {
        if self.denominator == 0 {
            return Err(BattleError::InvalidDamageModifier);
        }
        Ok((value * self.numerator) / self.denominator)
    }
}

#[derive(Debug, Clone, Copy, PartialEq, Eq, Structural)]
pub struct DamageModifier {
    pub power_modifier: Fraction,
    pub attack_modifier: Fraction,
    pub defense_modifier: Fraction,
    pub weather: Fraction,
    pub critical: Fraction,
    pub random_percent: u8,
    pub stab: Fraction,
    pub type_effectiveness: Fraction,
    pub burn: Fraction,
    pub other: Fraction,
}

/// Modifiers that change nothing: every fraction is 1/1 and the random percentage is 100.
pub open spec fn neutral_modifiers() -> DamageModifier {
    let one = Fraction { numerator: 1, denominator: 1 };
    DamageModifier {
        power_modifier: one,
        attack_modifier: one,
        defense_modifier: one,
        weather: one,
        critical: one,
        random_percent: 100,
        stab: one,
        type_effectiveness: one,
        burn: one,
        other: one,
    }
}

impl Default for DamageModifier {
    fn default() -> (r: Self)
        ensures
            r == neutral_modifiers(),
    {
        DamageModifier {
            power_modifier: Fraction::one(),
            attack_modifier: Fraction::one(),
            defense_modifier: Fraction::one(),
            weather: Fraction::one(),
            critical: Fraction::one(),
            random_percent: 100,
            stab: Fraction::one(),
            type_effectiveness: Fraction::one(),
            burn: Fraction::one(),
            other: Fraction::one(),
        }
    }
}

/// The same-type attack bonus for a move type: 3/2 when the attacker has the type, else 1/1.
pub open spec fn stab_bonus(attacker: &Pokemon, selected_move: &Move) -> Fraction {
    if attacker.of_type(selected_move.move_type) {
        Fraction { numerator: 3, denominator: 2 }
    } else {
        Fraction { numerator: 1, denominator: 1 }
    }
}

/// The type effectiveness of a move against a defender.
pub open spec fn effectiveness_of(defender: &Pokemon, selected_move: &Move) -> Fraction {
    quarters_fraction(
        combined_quarters(selected_move.move_type, defender.entry.primary_type, defender.entry.secondary_type),
    )
}

impl DamageModifier {
    /// Replaces the random percentage with a roll in 85..=100: drawn from a generator seeded
    /// with `seed` when one is given, from the thread-local generator otherwise.
    pub fn with_raw_random_roll(self, seed: Option<u64>) -> (r: Result<Self, BattleError>)
        ensures
            r matches Ok(m) && m == (DamageModifier { random_percent: m.random_percent, ..self })
                && MIN_DAMAGE_PERCENT <= m.random_percent <= MAX_DAMAGE_PERCENT
                && (seed matches Some(s) ==> m.random_percent == seeded_roll_value(s, MIN_DAMAGE_PERCENT, MAX_DAMAGE_PERCENT)),
    {
        let roll = match seed {
            Some(s) => seeded_roll(s, MIN_DAMAGE_PERCENT, MAX_DAMAGE_PERCENT),
            None => thread_roll(MIN_DAMAGE_PERCENT, MAX_DAMAGE_PERCENT),
        };
        Ok(DamageModifier { random_percent: roll, ..self })
    }

    /// Sets the same-type attack bonus and the type effectiveness for this attack.
    pub fn update_from_battle(&mut self, attacker: &Pokemon, defender: &Pokemon, selected_move: &Move)
        ensures
            *final(self) == (DamageModifier {
                stab: stab_bonus(attacker, selected_move),
                type_effectiveness: effectiveness_of(defender, selected_move),
                ..*old(self)
            }),
    {
        let is_stab = attacker.has_type(selected_move.move_type);
        self.stab = if is_stab {
            Fraction::three_halves()
        } else {
            Fraction::one()
        };
        self.type_effectiveness = type_effectiveness_against(selected_move.move_type, defender);
    }
}

#[derive(Debug, Clone, Copy, PartialEq, Eq)]
pub struct DamageResult {
    pub damage: u16,
    pub effectiveness: Fraction,
}

/// The attack and defense stats a move uses: physical moves use Attack and Defense, special
/// moves Special Attack and Special Defense.
pub open spec fn attack_and_defense(attacker: Stats, defender: Stats, category: MoveCategory) -> (u16, u16) {
    match category {
        MoveCategory::Physical => (attacker.attack, defender.defense),
        _ => (attacker.special_attack, defender.special_defense),
    }
}

/// Damage before the final modifiers: `(2 * level / 5 + 2) * power * attack / (50 * defense) + 2`.
pub open spec fn base_damage(level: u8, power: u16, attack: u16, defense: u16) -> int {
    ((level * 2) / 5 + 2) * power * attack / (50 * defense) + 2
}

/// The damage formula with a random percentage, a same-type bonus and a type effectiveness,
/// each applied in turn and rounded down; a move with no effect deals nothing and any other
/// attack deals between 1 and `u16::MAX`.
pub open spec fn formula_damage(
    level: u8,
    power: u16,
    attack: u16,
    defense: u16,
    random_percent: u8,
    stab: Fraction,
    effectiveness: Fraction,
) -> u16 {
    let rolled = base_damage(level, power, attack, defense) * random_percent / 100;
    let boosted = effectiveness.scale(stab.scale(rolled));
    if effectiveness.numerator == 0 {
        0
    } else if boosted < 1 {
        1
    } else if boosted > u16::MAX {
        u16::MAX
    } else {
        boosted as u16
    }
}

/// The result of a damage calculation whose random percentage is `roll`.
pub open spec fn damage_outcome(attacker: &Pokemon, defender: &Pokemon, selected_move: &Move, roll: u8) -> Result<
    DamageResult,
    BattleError,
> {
    if selected_move.category == MoveCategory::Status || selected_move.power == 0 {
        Ok(DamageResult { damage: 0, effectiveness: Fraction { numerator: 1, denominator: 1 } })
    } else {
        let (attack, defense) = attack_and_defense(attacker.stats, defender.stats, selected_move.category);
        if defense == 0 {
            Err(BattleError::ZeroDefenseStat)
        } else if !(MIN_DAMAGE_PERCENT <= roll <= MAX_DAMAGE_PERCENT) {
            Err(BattleError::InvalidDamageRandomPercent { percent: roll })
        } else {
            let effectiveness = effectiveness_of(defender, selected_move);
            Ok(
                DamageResult {
                    damage: formula_damage(
                        attacker.level,
                        selected_move.power,
                        attack,
                        defense,
                        roll,
                        stab_bonus(attacker, selected_move),
                        effectiveness,
                    ),
                    effectiveness,
                },
            )
        }
    }
}

/// A physical move's damage depends on the attacker's Attack and the defender's Defense and on
/// none of their other stats: Pokemon that agree on level, species, moves, Attack and Defense
/// take and deal the same physical damage, whatever their Special Attack, Special Defense,
/// Speed or HP.
pub proof fn lemma_physical_damage_uses_attack_and_defense(
    attacker: &Pokemon,
    attacker2: &Pokemon,
    defender: &Pokemon,
    defender2: &Pokemon,
    selected_move: &Move,
    roll: u8,
)
    requires
        selected_move.category == MoveCategory::Physical,
        attacker2.level == attacker.level,
        attacker2.entry == attacker.entry,
        attacker2.stats.attack == attacker.stats.attack,
        defender2.entry == defender.entry,
        defender2.stats.defense == defender.stats.defense,
    ensures
        damage_outcome(attacker, defender, selected_move, roll) == damage_outcome(
            attacker2,
            defender2,
            selected_move,
            roll,
        ),
{
}

proof fn lemma_scale_monotone(f: Fraction, x: int, y: int)
    requires
        0 <= x <= y,
        f.denominator > 0,
    ensures
        0 <= f.scale(x) <= f.scale(y),
{
    lemma_mul_inequality(x, y, f.numerator as int);
    lemma_div_is_ordered(x * f.numerator, y * f.numerator, f.denominator as int);
    assert(0 <= x * f.numerator) by (nonlinear_arith)
        requires
            0 <= x,
    ;
    assert(0 <= (x * f.numerator) / (f.denominator as int)) by (nonlinear_arith)
        requires
            0 <= x * f.numerator,
            f.denominator > 0,
    ;
}

/// The damage formula never falls as the attacking stat rises.
proof fn lemma_formula_grows_with_attack(
    level: u8,
    power: u16,
    attack: u16,
    attack2: u16,
    defense: u16,
    random_percent: u8,
    stab: Fraction,
    effectiveness: Fraction,
)
    requires
        attack <= attack2,
        defense > 0,
        stab.denominator > 0,
        effectiveness.denominator > 0,
    ensures
        formula_damage(level, power, attack, defense, random_percent, stab, effectiveness) <= formula_damage(
            level,
            power,
            attack2,
            defense,
            random_percent,
            stab,
            effectiveness,
        ),
{
    let k = ((level * 2) / 5 + 2) * power;
    assert(k >= 0) by (nonlinear_arith)
        requires
            k == ((level * 2) / 5 + 2) * power,
            power >= 0,
            level >= 0,
    ;
    lemma_mul_inequality(attack as int, attack2 as int, k);
    assert(k * attack == ((level * 2) / 5 + 2) * power * attack) by (nonlinear_arith)
        requires
            k == ((level * 2) / 5 + 2) * power,
    ;
    assert(k * attack2 == ((level * 2) / 5 + 2) * power * attack2) by (nonlinear_arith)
        requires
            k == ((level * 2) / 5 + 2) * power,
    ;
    lemma_div_is_ordered(k * attack, k * attack2, 50 * defense);
    assert(0 <= k * attack) by (nonlinear_arith)
        requires
            k >= 0,
            attack >= 0,
    ;
    assert(0 <= (k * attack) / (50 * defense as int)) by (nonlinear_arith)
        requires
            0 <= k * attack,
            defense > 0,
    ;
    let b1 = base_damage(level, power, attack, defense);
    let b2 = base_damage(level, power, attack2, defense);
    assert(0 <= b1 <= b2);
    lemma_mul_inequality(b1, b2, random_percent as int);
    lemma_div_is_ordered(b1 * random_percent, b2 * random_percent, 100);
    assert(0 <= (b1 * random_percent) / 100) by (nonlinear_arith)
        requires
            0 <= b1,
            random_percent >= 0,
    ;
    let r1 = b1 * random_percent / 100;
    let r2 = b2 * random_percent / 100;
    lemma_scale_monotone(stab, r1, r2);
    lemma_scale_monotone(effectiveness, stab.scale(r1), stab.scale(r2));
}

/// Raising the attacker's Attack never lowers a physical move's damage.
pub proof fn lemma_physical_damage_grows_with_attack(
    attacker: &Pokemon,
    attacker2: &Pokemon,
    defender: &Pokemon,
    selected_move: &Move,
    roll: u8,
)
    requires
        selected_move.category == MoveCategory::Physical,
        attacker2.level == attacker.level,
        attacker2.entry == attacker.entry,
        attacker.stats.attack <= attacker2.stats.attack,
    ensures
        damage_outcome(attacker, defender, selected_move, roll) matches Ok(d) ==> damage_outcome(
            attacker2,
            defender,
            selected_move,
            roll,
        ) matches Ok(d2) && d.damage <= d2.damage,
{
    if selected_move.category != MoveCategory::Status && selected_move.power != 0 && defender.stats.defense != 0
        && MIN_DAMAGE_PERCENT <= roll <= MAX_DAMAGE_PERCENT {
        let effectiveness = effectiveness_of(defender, selected_move);
        lemma_effectiveness_values(selected_move.move_type, defender.entry.primary_type, defender.entry.secondary_type);
        lemma_formula_grows_with_attack(
            attacker.level,
            selected_move.power,
            attacker.stats.attack,
            attacker2.stats.attack,
            defender.stats.defense,
            roll,
            stab_bonus(attacker, selected_move),
            effectiveness,
        );
    }
}

/// A special move's damage depends on the attacker's Special Attack and the defender's
/// Special Defense and on none of their other stats.
pub proof fn lemma_special_damage_uses_special_stats(
    attacker: &Pokemon,
    attacker2: &Pokemon,
    defender: &Pokemon,
    defender2: &Pokemon,
    selected_move: &Move,
    roll: u8,
)
    requires
        selected_move.category == MoveCategory::Special,
        attacker2.level == attacker.level,
        attacker2.entry == attacker.entry,
        attacker2.stats.special_attack == attacker.stats.special_attack,
        defender2.entry == defender.entry,
        defender2.stats.special_defense == defender.stats.special_defense,
    ensures
        damage_outcome(attacker, defender, selected_move, roll) == damage_outcome(
            attacker2,
            defender2,
            selected_move,
            roll,
        ),
{
}

/// Scales a damage value by a percentage, rounding down.
pub fn apply_random_percent(value: u64, percent: u8) -> (r: u64)
    requires
        value * percent <= u64::MAX,
    ensures
        r == value * percent / 100,
{
    (value * percent as u64) / 100
}

proof fn lemma_product_bound(a: u64, b: u64, c: u64)
    requires
        a <= 104,
        b <= 65535,
        c <= 65535,
    ensures
        a * b * c <= 104 * 65535 * 65535,
        a * b <= 104 * 65535,
{
    assert(a * b <= 104 * 65535) by (nonlinear_arith)
        requires
            a <= 104,
            b <= 65535,
    ;
    assert(a * b * c <= 104 * 65535 * 65535) by (nonlinear_arith)
        requires
            a * b <= 104 * 65535,
            c <= 65535,
    ;
}

proof fn lemma_div_bound(x: int, d: int, bound: int)
    requires
        0 <= x <= bound,
        d >= 1,
    ensures
        0 <= x / d <= bound,
{
    assert(x / d <= x) by (nonlinear_arith)
        requires
            x >= 0,
            d >= 1,
    ;
}

/// Calculates damage for a given random percentage, without reading or changing either
/// Pokemon's runtime HP.
pub fn calculate_damage_with_roll(
    attacker: &Pokemon,
    defender: &Pokemon,
    selected_move: &Move,
    random_percent: u8,
) -> (r: Result<DamageResult, BattleError>)
    ensures
        r == damage_outcome(attacker, defender, selected_move, random_percent),
{
    if selected_move.category == MoveCategory::Status || selected_move.power == 0 {
        return Ok(DamageResult { damage: 0, effectiveness: Fraction::one() });
    }
    let (attack, defense) = match selected_move.category {
        MoveCategory::Physical => (attacker.stats.attack, defender.stats.defense),
        _ => (attacker.stats.special_attack, defender.stats.special_defense),
    };
    if defense == 0 {
        return Err(BattleError::ZeroDefenseStat);
    }
    let mut modifiers = DamageModifier::default();
    modifiers.random_percent = random_percent;
    modifiers.update_from_battle(attacker, defender, selected_move);
    if !(MIN_DAMAGE_PERCENT <= modifiers.random_percent && modifiers.random_percent <= MAX_DAMAGE_PERCENT) {
        return Err(BattleError::InvalidDamageRandomPercent { percent: modifiers.random_percent });
    }
    let power = modifiers.power_modifier.apply_to(selected_move.power as u64)?;
    let attack = modifiers.attack_modifier.apply_to(attack as u64)?;
    let defense = modifiers.defense_modifier.apply_to(defense as u64)?;
    let level_factor: u64 = (attacker.level as u64 * 2) / 5 + 2;
    proof {
        lemma_product_bound(level_factor, power, attack);
    }
    let product: u64 = level_factor * power * attack;
    let mut damage: u64 = product / (50 * defense) + 2;
    proof {
        lemma_div_bound(product as int, 50 * defense, (104 * 65535 * 65535) as int);
    }
    assert(damage == base_damage(attacker.level, selected_move.power, attack as u16, defense as u16));
    damage = modifiers.weather.apply_to(damage)?;
    damage = modifiers.critical.apply_to(damage)?;
    assert(damage * modifiers.random_percent <= (104 * 65535 * 65535 + 2) * 100) by (nonlinear_arith)
        requires
            damage <= 104 * 65535 * 65535 + 2,
            modifiers.random_percent <= 100,
    ;
    let before = damage;
    damage = apply_random_percent(damage, modifiers.random_percent);
    assert(damage <= before) by (nonlinear_arith)
        requires
            damage == before * modifiers.random_percent / 100,
            modifiers.random_percent <= 100,
    ;
    let ghost rolled = damage;
    assert(damage * 3 <= u64::MAX);
    damage = modifiers.stab.apply_to(damage)?;
    assert(damage <= 2 * rolled) by (nonlinear_arith)
        requires
            damage == rolled * modifiers.stab.numerator / modifiers.stab.denominator as int,
            (modifiers.stab.numerator == 3 && modifiers.stab.denominator == 2) || (modifiers.stab.numerator == 1
                && modifiers.stab.denominator == 1),
    ;
    assert(modifiers.type_effectiveness.numerator <= 4);
    assert(damage * modifiers.type_effectiveness.numerator <= damage * 4) by (nonlinear_arith)
        requires
            modifiers.type_effectiveness.numerator <= 4,
    ;
    damage = modifiers.type_effectiveness.apply_to(damage)?;
    damage = modifiers.burn.apply_to(damage)?;
    damage = modifiers.other.apply_to(damage)?;
    let effectiveness = modifiers.type_effectiveness;
    let damage: u16 = if effectiveness.numerator == 0 {
        0
    } else if damage < 1 {
        1
    } else if damage > 65535 {
        65535
    } else {
        damage as u16
    };
    Ok(DamageResult { damage, effectiveness })
}

/// Calculates damage without reading or changing either Pokemon's runtime HP. The random
/// percentage is drawn in 85..=100, from a generator seeded with `seed` when one is given.
pub fn calculate_damage(attacker: &Pokemon, defender: &Pokemon, selected_move: &Move, seed: Option<u64>) -> (r: Result<
    DamageResult,
    BattleError,
>)
    ensures
        exists|roll: u8|
            MIN_DAMAGE_PERCENT <= roll <= MAX_DAMAGE_PERCENT && (seed matches Some(s) ==> roll == seeded_roll_value(s, MIN_DAMAGE_PERCENT, MAX_DAMAGE_PERCENT)) && r
                == #[trigger] damage_outcome(attacker, defender, selected_move, roll),
{
    let modifiers = DamageModifier::default().with_raw_random_roll(seed)?;
    calculate_damage_with_roll(attacker, defender, selected_move, modifiers.random_percent)
}

/// Only an immunity stops a damaging move: a physical or special move with power deals no
/// damage exactly when the defender is immune to it, and at least 1 otherwise.
pub proof fn lemma_only_immunity_stops_damage(attacker: &Pokemon, defender: &Pokemon, selected_move: &Move, roll: u8)
    requires
        selected_move.category != MoveCategory::Status,
        selected_move.power > 0,
    ensures
        damage_outcome(attacker, defender, selected_move, roll) matches Ok(res) ==> {
            &&& res.effectiveness == effectiveness_of(defender, selected_move)
            &&& res.damage == 0 <==> res.effectiveness.numerator == 0
        },
{
}

} // verus!
