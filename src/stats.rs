use vstd::prelude::*;

use crate::quarter::{lemma_round_up_exceeds, round_up_quarter, round_up_spec, Fraction};

verus! {

/// The baseline attributes of a race, looked up by the race's name.
pub struct StatsRace {
    pub race: String,
    pub force: u8,
    pub resistance: u8,
    pub vitesse: u8,
    pub force_magique: u8,
    pub resistance_magique: u8,
}

/// A character's individually rolled trait values, one per attribute.
#[derive(Clone, Copy, Debug, PartialEq, Eq)]
pub struct IvStats {
    pub force: u8,
    pub resistance: u8,
    pub vitesse: u8,
    pub resistance_magique: u8,
    pub force_magique: u8,
}

/// Usable attributes, each in quarters of a point.
#[derive(Clone, Copy, Debug, PartialEq, Eq)]
pub struct Stats {
    pub force: i64,
    pub resistance: i64,
    pub vitesse: i64,
    pub force_magique: i64,
    pub resistance_magique: i64,
}

/// The numerator, over `75`, of the raw attribute in quarters. The raw
/// attribute is `(2 * (b + base) + iv) * (level + 2) / 150 + 5` points, where
/// `b` is `bonus / 4` points (`bonus` is given in quarters).
pub open spec fn raw_numerator(base: int, iv: int, level: int, bonus: int) -> int {
    (bonus + 4 * base + 2 * iv) * (level + 2) + 1500
}

/// A derived attribute in quarters: the raw value rounded up onto the grid.
pub open spec fn derived(base: int, iv: int, level: int, bonus: int) -> int {
    round_up_spec(raw_numerator(base, iv, level, bonus), 75)
}

pub open spec fn fits_i64(x: int) -> bool {
    i64::MIN <= x <= i64::MAX
}

/// The bonus that a modifier brings: its force, applied to every attribute.
pub open spec fn bonus_of(stats_mod: Option<Stats>) -> int {
    match stats_mod {
        Some(s) => s.force as int,
        None => 0,
    }
}

/// A race's baseline attributes: force, resistance, speed, magic force,
/// magic resistance.
pub type Baseline = (u8, u8, u8, u8, u8);

pub open spec fn baseline(r: StatsRace) -> Baseline {
    (r.force, r.resistance, r.vitesse, r.force_magique, r.resistance_magique)
}

/// Whether every derived attribute fits the machine range.
pub open spec fn calc_fits(iv: IvStats, level: u8, b: Baseline, bonus: int) -> bool {
    &&& fits_i64(derived(b.0 as int, iv.force as int, level as int, bonus))
    &&& fits_i64(derived(b.1 as int, iv.resistance as int, level as int, bonus))
    &&& fits_i64(derived(b.2 as int, iv.vitesse as int, level as int, bonus))
    &&& fits_i64(derived(b.3 as int, iv.force_magique as int, level as int, bonus))
    &&& fits_i64(derived(b.4 as int, iv.resistance_magique as int, level as int, bonus))
}

pub open spec fn calc_spec(iv: IvStats, level: u8, b: Baseline, bonus: int) -> Stats {
    Stats {
        force: derived(b.0 as int, iv.force as int, level as int, bonus) as i64,
        resistance: derived(b.1 as int, iv.resistance as int, level as int, bonus) as i64,
        vitesse: derived(b.2 as int, iv.vitesse as int, level as int, bonus) as i64,
        force_magique: derived(b.3 as int, iv.force_magique as int, level as int, bonus) as i64,
        resistance_magique: derived(b.4 as int, iv.resistance_magique as int, level as int, bonus)
            as i64,
    }
}

fn derive_one(base: u8, iv: u8, level: u8, bonus: i64) -> (r: i64)
    requires
        fits_i64(derived(base as int, iv as int, level as int, bonus as int)),
    ensures
        r == derived(base as int, iv as int, level as int, bonus as int),
{
    let sum: i128 = bonus as i128 + 4 * (base as i128) + 2 * (iv as i128);
    assert(-(0x8000_0000_0000_0000int) <= sum <= 0x8000_0000_0000_0000int + 2000);
    let scaled: i128 = sum * (level as i128 + 2);
    assert(-(0x8000_0000_0000_0000int) * 257 <= scaled <= (0x8000_0000_0000_0000int + 2000) * 257)
        by (nonlinear_arith)
        requires
            scaled == sum * (level + 2),
            0 <= level <= 255,
            -(0x8000_0000_0000_0000int) <= sum <= 0x8000_0000_0000_0000int + 2000,
    ;
    let r = round_up_quarter(Fraction { num: scaled + 1500, den: 75 });
    r as i64
}

/// Derives the usable stats of a character from its trait values, its level,
/// its race baseline and an optional modifier. Each attribute is
/// `(2 * (bonus + baseline) + iv) * (level + 2) / 150 + 5` points, rounded up
/// onto the quarter grid, where `bonus` is the modifier's force (zero when
/// there is none), added to every attribute alike. No bound is placed on the
/// level or the trait values.
pub fn calc_stats(iv: IvStats, level: u8, stats_race: StatsRace, stats_mod: Option<Stats>) -> (r:
    Stats)
    requires
        calc_fits(iv, level, baseline(stats_race), bonus_of(stats_mod)),
    ensures
        r == calc_spec(iv, level, baseline(stats_race), bonus_of(stats_mod)),
{
    let bonus: i64 = match stats_mod {
        Some(s) => s.force,
        None => 0,
    };
    Stats {
        force: derive_one(stats_race.force, iv.force, level, bonus),
        resistance: derive_one(stats_race.resistance, iv.resistance, level, bonus),
        vitesse: derive_one(stats_race.vitesse, iv.vitesse, level, bonus),
        force_magique: derive_one(stats_race.force_magique, iv.force_magique, level, bonus),
        resistance_magique: derive_one(stats_race.resistance_magique, iv.resistance_magique, level, bonus),
    }
}

/// Derivation is a function of its inputs alone: two calls of `calc_stats`
/// with equal trait values, level, race baseline and modifier give equal
/// stats.
pub proof fn lemma_calc_deterministic(
    iv1: IvStats,
    level1: u8,
    race1: StatsRace,
    mod1: Option<Stats>,
    iv2: IvStats,
    level2: u8,
    race2: StatsRace,
    mod2: Option<Stats>,
)
    requires
        iv1 == iv2,
        level1 == level2,
        baseline(race1) == baseline(race2),
        mod1 == mod2,
    ensures
        calc_spec(iv1, level1, baseline(race1), bonus_of(mod1)) == calc_spec(
            iv2,
            level2,
            baseline(race2),
            bonus_of(mod2),
        ),
{
}

/// Every derived attribute is strictly greater than its raw value (in
/// quarters, `raw_numerator / 75`) and lies on the quarter grid, being a whole
/// number of quarters; a non-negative raw value already on the grid gains
/// exactly one quarter.
pub proof fn lemma_derived_exceeds_raw(base: int, iv: int, level: int, bonus: int)
    ensures
        derived(base, iv, level, bonus) * 75 > raw_numerator(base, iv, level, bonus),
        raw_numerator(base, iv, level, bonus) >= 0 && raw_numerator(base, iv, level, bonus) % 75
            == 0 ==> derived(base, iv, level, bonus) == raw_numerator(base, iv, level, bonus) / 75
            + 1,
{
    lemma_round_up_exceeds(raw_numerator(base, iv, level, bonus), 75);
}

/// Every attribute that `calc_stats` derives exceeds its raw value: rounding
/// never leaves a fixed point, including for raw values already on the grid.
pub proof fn lemma_calc_exceeds_raw(iv: IvStats, level: u8, b: Baseline, bonus: int)
    requires
        calc_fits(iv, level, b, bonus),
    ensures
        calc_spec(iv, level, b, bonus).force * 75 > raw_numerator(b.0 as int, iv.force as int, level as int, bonus),
        calc_spec(iv, level, b, bonus).resistance * 75 > raw_numerator(b.1 as int, iv.resistance as int, level as int, bonus),
        calc_spec(iv, level, b, bonus).vitesse * 75 > raw_numerator(b.2 as int, iv.vitesse as int, level as int, bonus),
        calc_spec(iv, level, b, bonus).force_magique * 75 > raw_numerator(b.3 as int, iv.force_magique as int, level as int, bonus),
        calc_spec(iv, level, b, bonus).resistance_magique * 75 > raw_numerator(
            b.4 as int,
            iv.resistance_magique as int,
            level as int,
            bonus,
        ),
{
    lemma_derived_exceeds_raw(b.0 as int, iv.force as int, level as int, bonus);
    lemma_derived_exceeds_raw(b.1 as int, iv.resistance as int, level as int, bonus);
    lemma_derived_exceeds_raw(b.2 as int, iv.vitesse as int, level as int, bonus);
    lemma_derived_exceeds_raw(b.3 as int, iv.force_magique as int, level as int, bonus);
    lemma_derived_exceeds_raw(b.4 as int, iv.resistance_magique as int, level as int, bonus);
}

/// Without a modifier, a derived attribute lies between 5.25 and 5000 points.
pub proof fn lemma_plain_range(base: int, iv: int, level: int)
    requires
        0 <= base <= 255,
        0 <= iv <= 255,
        0 <= level <= 255,
    ensures
        21 <= derived(base, iv, level, 0) <= 20000,
{
    let n = raw_numerator(base, iv, level, 0);
    assert(1500 <= n <= 1000000) by (nonlinear_arith)
        requires
            n == (0 + 4 * base + 2 * iv) * (level + 2) + 1500,
            0 <= base <= 255,
            0 <= iv <= 255,
            0 <= level <= 255,
    ;
}

/// Without a modifier, every derived attribute fits the machine range.
pub proof fn lemma_plain_fits(iv: IvStats, level: u8, b: Baseline)
    ensures
        calc_fits(iv, level, b, 0),
{
    assert forall|base: int, v: int| 0 <= base <= 255 && 0 <= v <= 255 implies fits_i64(
        derived(base, v, level as int, 0),
    ) by {
        let n = raw_numerator(base, v, level as int, 0);
        assert(0 <= n <= 1000000) by (nonlinear_arith)
            requires
                n == (0 + 4 * base + 2 * v) * (level + 2) + 1500,
                0 <= base <= 255,
                0 <= v <= 255,
                0 <= level <= 255,
        ;
        assert(n / 75 <= n) by (nonlinear_arith)
            requires n >= 0;
    }
}

/// The baseline filed under `name` among the first `n` entries: the last one
/// that carries the name, else all zeros.
pub open spec fn race_baseline_upto(races: Seq<StatsRace>, name: Seq<char>, n: int) -> Baseline
    decreases n,
{
    if n <= 0 {
        (0, 0, 0, 0, 0)
    } else if races[n - 1].race@ == name {
        baseline(races[n - 1])
    } else {
        race_baseline_upto(races, name, n - 1)
    }
}

pub open spec fn race_baseline(races: Seq<StatsRace>, name: Seq<char>) -> Baseline {
    race_baseline_upto(races, name, races.len() as int)
}

/// Whether `i` is the last entry of `races` that carries the name `name`.
pub open spec fn last_race_at(races: Seq<StatsRace>, name: Seq<char>, i: int) -> bool {
    &&& 0 <= i < races.len()
    &&& races[i].race@ == name
    &&& forall|j: int| i < j < races.len() ==> races[j].race@ != name
}

/// Looks up a race's baseline by name: the last entry with that name. An
/// unknown race is no error: it gives a baseline named `Erreur` whose
/// attributes are all zero.
pub fn get_race_stats(races: &Vec<StatsRace>, race: &String) -> (r: StatsRace)
    ensures
        baseline(r) == race_baseline(races@, race@),
        (exists|i: int| last_race_at(races@, race@, i) && r == races@[i]) || ((forall|j: int|
            0 <= j < races@.len() ==> races@[j].race@ != race@) && r.race@ == "Erreur"@),
{
    let mut i: usize = races.len();
    while i > 0
        invariant
            0 <= i <= races@.len(),
            race_baseline(races@, race@) == race_baseline_upto(races@, race@, i as int),
            forall|j: int| i <= j < races@.len() ==> races@[j].race@ != race@,
        decreases i,
    {
        if races[i - 1].race == *race {
            let e = &races[i - 1];
            assert(last_race_at(races@, race@, i - 1));
            return StatsRace {
                race: e.race.clone(),
                force: e.force,
                resistance: e.resistance,
                vitesse: e.vitesse,
                force_magique: e.force_magique,
                resistance_magique: e.resistance_magique,
            };
        }
        i = i - 1;
    }
    StatsRace {
        race: "Erreur".to_owned(),
        force: 0,
        resistance: 0,
        vitesse: 0,
        force_magique: 0,
        resistance_magique: 0,
    }
}

} // verus!
