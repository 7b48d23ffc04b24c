use vstd::prelude::*;

use rand::Rng;

use crate::adventurer::{find_adventurer, first_named_at, is_known, race_label, Adventurer};
use crate::quarter::{lemma_trunc_div_shrinks, round_up_quarter, Fraction};
use crate::resolve::{
    exchange, result_roll_attack, sides_of, speed_bucket, speed_die, AttackResult, DiffStats,
    Entities, Entity,
};
use crate::stats::{
    calc_spec, calc_stats, fits_i64, get_race_stats, lemma_plain_fits, lemma_plain_range,
    race_baseline, Stats, StatsRace,
};
use crate::weapon::{
    apply_weapon, lemma_heavy_against_medium, lemma_light_against_medium, settled, step_spec,
    weapon_of, Armed, ArmedModel, Weapon,
};

verus! {

/// Why an exchange could not be resolved.
#[derive(Clone, Copy, Debug, PartialEq, Eq, Structural)]
pub enum CombatError {
    /// A named combatant is not in the roster.
    NotFound,
    /// The command is malformed.
    InvalidInput,
    /// The thresholds cannot be read, or do not rise strictly.
    ConfigError,
}

/// The usable stats of a character, from its race's baseline and its level.
pub open spec fn base_stats(adv: Adventurer, races: Seq<StatsRace>) -> Stats {
    calc_spec(adv.iv, adv.level, race_baseline(races, race_label(adv.race)), 0)
}

/// Whether `e` is the combatant made of `adv`, with force and speed `armed`.
pub open spec fn entity_from(e: Entity, adv: Adventurer, races: Seq<StatsRace>, armed: (int, int)) -> bool {
    let st = base_stats(adv, races);
    &&& e.name@ == adv.name@
    &&& e.level == adv.level
    &&& e.force == armed.0
    &&& e.vitesse == armed.1
    &&& e.resistance == st.resistance
    &&& e.resistance_magique == st.resistance_magique
    &&& e.force_magique == st.force_magique
}

/// Builds a combatant from a character: its name, its level, and the stats
/// derived from its race's baseline with no modifier.
pub fn set_entity_stats(adv: &Adventurer, races: &Vec<StatsRace>) -> (r: Entity)
    ensures
        entity_from(
            r,
            *adv,
            races@,
            (base_stats(*adv, races@).force as int, base_stats(*adv, races@).vitesse as int),
        ),
{
    let race = get_race_stats(races, &adv.race.name());
    proof {
        lemma_plain_fits(adv.iv, adv.level, race_baseline(races@, race_label(adv.race)));
    }
    let stats = calc_stats(adv.iv, adv.level, race, None);
    Entity {
        name: adv.name.clone(),
        level: adv.level,
        force: stats.force,
        resistance: stats.resistance,
        vitesse: stats.vitesse,
        resistance_magique: stats.resistance_magique,
        force_magique: stats.force_magique,
    }
}

pub open spec fn is_marker(t: String) -> bool {
    t@ == "-weapon"@
}

/// The position of the first token at or after `i` that names a known
/// character, or the number of tokens when there is none.
pub open spec fn next_known(toks: Seq<String>, roster: Seq<Adventurer>, i: int) -> int
    decreases toks.len() - i,
{
    if i >= toks.len() {
        toks.len() as int
    } else if is_known(roster, toks[i]@) {
        i
    } else {
        next_known(toks, roster, i + 1)
    }
}

/// The force and speed reached by applying, in order, the weapon named after
/// each `-weapon` marker at a position in `lo..hi`, from the state `s0`.
/// `None` when an exact value leaves the machine range.
pub open spec fn arm_spec(toks: Seq<String>, lo: int, hi: int, s0: ArmedModel) -> Option<
    ArmedModel,
>
    decreases hi - lo,
{
    if hi <= lo {
        Some(s0)
    } else {
        match arm_spec(toks, lo, hi - 1, s0) {
            None => None,
            Some(s) => if is_marker(toks[hi - 1]) {
                step_spec(s, weapon_of(toks[hi]@))
            } else {
                Some(s)
            },
        }
    }
}

/// Force and speed in quarters once the weapons in `lo..hi` are applied to
/// `base` and both are rounded up onto the grid; `None` when a value leaves
/// the machine range.
pub open spec fn armed_stats(toks: Seq<String>, lo: int, hi: int, base: Stats) -> Option<
    (int, int),
> {
    match arm_spec(toks, lo, hi, (base.force as int, 1, base.vitesse as int, 1)) {
        Some(s) => if fits_i64(settled(s).0) && fits_i64(settled(s).1) {
            Some(settled(s))
        } else {
            None
        },
        None => None,
    }
}

/// The first character of `roster` named `name`.
pub open spec fn named(roster: Seq<Adventurer>, name: Seq<char>) -> Adventurer {
    roster[choose|i: int| first_named_at(roster, name, i)]
}

/// What `search_entities` gives for a command: the two characters with their
/// armed force and speed, or the error.
pub open spec fn search_spec(toks: Seq<String>, roster: Seq<Adventurer>, races: Seq<StatsRace>) -> Result<
    (Adventurer, Adventurer, (int, int), (int, int)),
    CombatError,
> {
    let len = toks.len() as int;
    let split = next_known(toks, roster, 2);
    let end = next_known(toks, roster, split + 1);
    if len < 2 {
        Err(CombatError::InvalidInput)
    } else if !is_known(roster, toks[1]@) {
        Err(CombatError::NotFound)
    } else if split >= len {
        Err(CombatError::InvalidInput)
    } else if len - 1 > split && is_marker(toks[len - 1]) {
        Err(CombatError::InvalidInput)
    } else {
        let a1 = named(roster, toks[1]@);
        let a2 = named(roster, toks[split]@);
        match (
            armed_stats(toks, 2, split, base_stats(a1, races)),
            armed_stats(toks, split + 1, end, base_stats(a2, races)),
        ) {
            (Some(w1), Some(w2)) => Ok((a1, a2, w1, w2)),
            _ => Err(CombatError::InvalidInput),
        }
    }
}

proof fn lemma_named(roster: Seq<Adventurer>, name: Seq<char>, k: int)
    requires
        first_named_at(roster, name, k),
    ensures
        named(roster, name) == roster[k],
{
    let i = choose|i: int| first_named_at(roster, name, i);
    assert(first_named_at(roster, name, i));
    if i < k {
        assert(roster[i].name@ != name);
    } else if k < i {
        assert(roster[k].name@ != name);
    }
}

proof fn lemma_next_known_is_known(toks: Seq<String>, roster: Seq<Adventurer>, i: int)
    requires
        0 <= i,
        next_known(toks, roster, i) < toks.len(),
    ensures
        is_known(roster, toks[next_known(toks, roster, i)]@),
    decreases toks.len() - i,
{
    if i < toks.len() && !is_known(roster, toks[i]@) {
        lemma_next_known_is_known(toks, roster, i + 1);
    }
}

proof fn lemma_arm_none_stays(toks: Seq<String>, lo: int, j: int, hi: int, s0: ArmedModel)
    requires
        lo <= j <= hi,
        arm_spec(toks, lo, j, s0) is None,
    ensures
        arm_spec(toks, lo, hi, s0) is None,
    decreases hi - j,
{
    if j < hi {
        lemma_arm_none_stays(toks, lo, j, hi - 1, s0);
    }
}

fn next_known_exec(toks: &Vec<String>, roster: &Vec<Adventurer>, start: usize) -> (r: usize)
    requires
        start <= toks@.len(),
    ensures
        r == next_known(toks@, roster@, start as int),
        start <= r <= toks@.len(),
{
    let mut i: usize = start;
    while i < toks.len()
        invariant
            start <= i <= toks@.len(),
            next_known(toks@, roster@, start as int) == next_known(toks@, roster@, i as int),
        decreases toks@.len() - i,
    {
        if find_adventurer(roster, &toks[i]).is_some() {
            return i;
        }
        i = i + 1;
    }
    i
}

fn stats_of(e: &Entity) -> (r: Stats)
    ensures
        r.force == e.force,
        r.resistance == e.resistance,
        r.vitesse == e.vitesse,
        r.force_magique == e.force_magique,
        r.resistance_magique == e.resistance_magique,
{
    Stats {
        force: e.force,
        resistance: e.resistance,
        vitesse: e.vitesse,
        force_magique: e.force_magique,
        resistance_magique: e.resistance_magique,
    }
}

/// Applies the weapons named in `lo..hi` to a combatant's force and speed,
/// then rounds both up onto the quarter grid.
fn arm_range(toks: &Vec<String>, lo: usize, hi: usize, base: Stats) -> (r: Option<(i64, i64)>)
    requires
        lo <= hi <= toks@.len(),
        forall|j: int| lo <= j < hi && is_marker(#[trigger] toks@[j]) ==> j + 1 < toks@.len(),
    ensures
        match r {
            Some(p) => armed_stats(toks@, lo as int, hi as int, base) == Some(
                (p.0 as int, p.1 as int),
            ),
            None => armed_stats(toks@, lo as int, hi as int, base) is None,
        },
{
    let ghost s0: ArmedModel = (base.force as int, 1, base.vitesse as int, 1);
    let mut s = Armed { force: Fraction::from_quarters(base.force), vitesse: Fraction::from_quarters(base.vitesse) };
    let marker = "-weapon".to_owned();
    let mut j: usize = lo;
    while j < hi
        invariant
            lo <= j <= hi <= toks@.len(),
            forall|k: int| lo <= k < hi && is_marker(#[trigger] toks@[k]) ==> k + 1 < toks@.len(),
            marker@ == "-weapon"@,
            s0 == (base.force as int, 1int, base.vitesse as int, 1int),
            s.wf(),
            arm_spec(toks@, lo as int, j as int, s0) == Some(s.model()),
        decreases hi - j,
    {
        if toks[j] == marker {
            let w = Weapon::from_token(&toks[j + 1]);
            match apply_weapon(s, w) {
                Some(t) => {
                    s = t;
                },
                None => {
                    assert(arm_spec(toks@, lo as int, j + 1, s0) is None);
                    proof {
                        lemma_arm_none_stays(toks@, lo as int, j + 1, hi as int, s0);
                    }
                    return None;
                },
            }
        }
        j = j + 1;
    }
    let f = round_up_quarter(s.force);
    let v = round_up_quarter(s.vitesse);
    if f >= i64::MIN as i128 && f <= i64::MAX as i128 && v >= i64::MIN as i128 && v <= i64::MAX as i128 {
        Some((f as i64, v as i64))
    } else {
        None
    }
}

/// Reads the two combatants of an attack command. `command[0]` is the
/// command word and `command[1]` names the first combatant; the first later
/// token that names a known character names the second. A `-weapon` marker
/// makes the token after it a weapon category for the combatant whose tokens
/// it stands among; the second combatant's tokens end at the next known name.
/// After the weapons, force and speed of both are rounded up onto the grid.
///
/// Fails with `InvalidInput` when there are fewer than two tokens (before any
/// lookup), `NotFound` when the first name is unknown, `InvalidInput` when no
/// second combatant is named, when the command ends on a bare `-weapon`
/// after the second combatant's name, or when stacked weapons take an exact
/// value out of the machine range.
pub fn search_entities(command: &Vec<String>, roster: &Vec<Adventurer>, races: &Vec<StatsRace>) -> (r:
    Result<Entities, CombatError>)
    ensures
        match (r, search_spec(command@, roster@, races@)) {
            (Ok(e), Ok((a1, a2, w1, w2))) => entity_from(e.entity_one, a1, races@, w1) && entity_from(
                e.entity_second,
                a2,
                races@,
                w2,
            ),
            (Err(x), Err(y)) => x == y,
            _ => false,
        },
{
    let len = command.len();
    if len < 2 {
        return Err(CombatError::InvalidInput);
    }
    let i1 = match find_adventurer(roster, &command[1]) {
        Some(i) => i,
        None => {
            return Err(CombatError::NotFound);
        },
    };
    let split = next_known_exec(command, roster, 2);
    if split == len {
        return Err(CombatError::InvalidInput);
    }
    proof {
        lemma_next_known_is_known(command@, roster@, 2);
    }
    let i2 = match find_adventurer(roster, &command[split]) {
        Some(i) => i,
        None => {
            return Err(CombatError::NotFound);
        },
    };
    let end = next_known_exec(command, roster, split + 1);
    let marker = "-weapon".to_owned();
    if len - 1 > split && command[len - 1] == marker {
        return Err(CombatError::InvalidInput);
    }
    proof {
        lemma_named(roster@, command@[1]@, i1 as int);
        lemma_named(roster@, command@[split as int]@, i2 as int);
    }
    let one = set_entity_stats(&roster[i1], races);
    let two = set_entity_stats(&roster[i2], races);
    let w1 = arm_range(command, 2, split, stats_of(&one));
    let w2 = arm_range(command, split + 1, end, stats_of(&two));
    match (w1, w2) {
        (Some(p1), Some(p2)) => Ok(
            Entities {
                entity_one: Entity { force: p1.0, vitesse: p1.1, ..one },
                entity_second: Entity { force: p2.0, vitesse: p2.1, ..two },
            },
        ),
        _ => Err(CombatError::InvalidInput),
    }
}

/// Whether `e` holds the combatants that `search_entities` reads from the
/// command.
pub open spec fn searched(e: Entities, toks: Seq<String>, roster: Seq<Adventurer>, races: Seq<StatsRace>) -> bool {
    match search_spec(toks, roster, races) {
        Ok((a1, a2, w1, w2)) => entity_from(e.entity_one, a1, races, w1) && entity_from(
            e.entity_second,
            a2,
            races,
            w2,
        ),
        Err(_) => false,
    }
}

/// Whether `roll` is a face of the die that the speed stage of `e` throws.
pub open spec fn face_of_die(e: Entities, t: DiffStats, roll: u8) -> bool {
    match sides_of(speed_bucket(e, t)) {
        Some(n) => 1 <= roll <= n,
        None => true,
    }
}

/// Whether `r` is the outcome of the exchange between the combatants that the
/// command names, for some face of the speed stage's die.
pub open spec fn resolves(
    r: AttackResult,
    toks: Seq<String>,
    roster: Seq<Adventurer>,
    races: Seq<StatsRace>,
    speed_t: DiffStats,
    power_t: DiffStats,
) -> bool {
    exists|e: Entities, roll: u8|
        searched(e, toks, roster, races) && face_of_die(e, speed_t, roll) && #[trigger] exchange(
            r,
            e,
            speed_t,
            power_t,
            roll,
        )
}

/// Relies on rand's `thread_rng` and `Rng::gen_range` over `1..=sides`: a face
/// drawn between 1 and `sides`, both included.
#[verifier::external_body]
fn roll_die(sides: u8) -> (r: u8)
    requires
        sides >= 1,
    ensures
        1 <= r <= sides,
{
    rand::thread_rng().gen_range(1..=sides)
}

/// Resolves an attack command: reads the two combatants, checks both
/// threshold snapshots, throws the speed stage's die and resolves the
/// exchange. The errors of `search_entities` come first; then `ConfigError`
/// when a snapshot does not rise strictly. Otherwise the outcome is that of
/// the exchange for some face of the die.
pub fn attack_roll(
    command: &Vec<String>,
    roster: &Vec<Adventurer>,
    races: &Vec<StatsRace>,
    speed_t: &DiffStats,
    power_t: &DiffStats,
) -> (r: Result<AttackResult, CombatError>)
    ensures
        match search_spec(command@, roster@, races@) {
            Err(x) => r is Err && r->Err_0 == x,
            Ok(_) => if !(speed_t.wf() && power_t.wf()) {
                r is Err && r->Err_0 == CombatError::ConfigError
            } else {
                r is Ok && resolves(r->Ok_0, command@, roster@, races@, *speed_t, *power_t)
            },
        },
{
    let e = match search_entities(command, roster, races) {
        Ok(e) => e,
        Err(x) => {
            return Err(x);
        },
    };
    if !speed_t.is_ordered() || !power_t.is_ordered() {
        return Err(CombatError::ConfigError);
    }
    let roll: u8 = match speed_die(&e, speed_t) {
        Some(n) => roll_die(n),
        None => 0,
    };
    let res = result_roll_attack(&e, speed_t, power_t, roll);
    assert(searched(e, command@, roster@, races@) && face_of_die(e, *speed_t, roll) && exchange(
        res,
        e,
        *speed_t,
        *power_t,
        roll,
    ));
    assert(resolves(res, command@, roster@, races@, *speed_t, *power_t));
    Ok(res)
}

/// A five-token command in which one combatant carries exactly one weapon:
/// `[word, x, -weapon, category, y]` when `k` is 1 (the first combatant is
/// armed) and `[word, x, y, -weapon, category]` when `k` is 2. The names `x`
/// and `y` are known; the marker and the category are not known names, and
/// the category is not itself a marker.
pub open spec fn single_weapon_command(t: Seq<String>, roster: Seq<Adventurer>, k: int) -> bool {
    &&& t.len() == 5
    &&& is_known(roster, t[1]@)
    &&& if k == 1 {
        &&& is_marker(t[2])
        &&& !is_known(roster, t[2]@)
        &&& !is_known(roster, t[3]@)
        &&& !is_marker(t[3])
        &&& is_known(roster, t[4]@)
    } else {
        &&& k == 2
        &&& is_known(roster, t[2]@)
        &&& is_marker(t[3])
        &&& !is_known(roster, t[3]@)
        &&& !is_known(roster, t[4]@)
        &&& !is_marker(t[4])
    }
}

/// Two commands that differ at most in the category token, at `k + 2`.
pub open spec fn same_but_category(t1: Seq<String>, t2: Seq<String>, k: int) -> bool {
    &&& t1.len() == t2.len()
    &&& forall|i: int| 0 <= i < t1.len() && i != k + 2 ==> t1[i] == t2[i]
}

/// Force and speed, in quarters, that combatant `k` ends with.
pub open spec fn armed_side(
    r: Result<(Adventurer, Adventurer, (int, int), (int, int)), CombatError>,
    k: int,
) -> (int, int) {
    if k == 1 {
        r->Ok_0.2
    } else {
        r->Ok_0.3
    }
}

/// Force and speed after one weapon and the final rounding pass.
pub open spec fn armed_once(base: Stats, w: Weapon) -> (int, int) {
    settled(step_spec((base.force as int, 1, base.vitesse as int, 1), w)->Some_0)
}

proof fn lemma_base_range(adv: Adventurer, races: Seq<StatsRace>)
    ensures
        21 <= base_stats(adv, races).force <= 20000,
        21 <= base_stats(adv, races).vitesse <= 20000,
{
    let b = race_baseline(races, race_label(adv.race));
    lemma_plain_range(b.0 as int, adv.iv.force as int, adv.level as int);
    lemma_plain_range(b.2 as int, adv.iv.vitesse as int, adv.level as int);
}

proof fn lemma_armed_once_fits(base: Stats, w: Weapon)
    requires
        21 <= base.force <= 20000,
        21 <= base.vitesse <= 20000,
    ensures
        step_spec((base.force as int, 1, base.vitesse as int, 1), w) is Some,
        fits_i64(armed_once(base, w).0),
        fits_i64(armed_once(base, w).1),
{
    let s = step_spec((base.force as int, 1, base.vitesse as int, 1), w)->Some_0;
    lemma_trunc_div_shrinks(base.force as int * 9, 10, 1);
    lemma_trunc_div_shrinks(s.0, s.1, 1);
    lemma_trunc_div_shrinks(s.2, s.3, 1);
}

/// What `search_entities` reads from a command of `single_weapon_command`.
pub proof fn lemma_single_weapon_search(t: Seq<String>, roster: Seq<Adventurer>, races: Seq<StatsRace>, k: int)
    requires
        single_weapon_command(t, roster, k),
    ensures
        ({
            let a1 = named(roster, t[1]@);
            let a2 = named(roster, t[if k == 1 { 4int } else { 2int }]@);
            let w = weapon_of(t[k + 2]@);
            search_spec(t, roster, races) == Ok::<_, CombatError>(
                (
                    a1,
                    a2,
                    if k == 1 { armed_once(base_stats(a1, races), w) } else { armed_once(base_stats(a1, races), Weapon::Moyen) },
                    if k == 2 { armed_once(base_stats(a2, races), w) } else { armed_once(base_stats(a2, races), Weapon::Moyen) },
                ),
            )
        }),
{
    let a1 = named(roster, t[1]@);
    let a2 = named(roster, t[if k == 1 { 4int } else { 2int }]@);
    let b1 = base_stats(a1, races);
    let b2 = base_stats(a2, races);
    lemma_base_range(a1, races);
    lemma_base_range(a2, races);
    let w = weapon_of(t[k + 2]@);
    lemma_armed_once_fits(b1, w);
    lemma_armed_once_fits(b2, w);
    lemma_armed_once_fits(b1, Weapon::Moyen);
    lemma_armed_once_fits(b2, Weapon::Moyen);
    let s1 = (b1.force as int, 1int, b1.vitesse as int, 1int);
    let s2 = (b2.force as int, 1int, b2.vitesse as int, 1int);
    assert(next_known(t, roster, 5) == 5);
    if k == 1 {
        assert(next_known(t, roster, 4) == 4);
        assert(next_known(t, roster, 3) == 4);
        assert(next_known(t, roster, 2) == 4);
        assert(arm_spec(t, 2, 2, s1) == Some(s1));
        assert(arm_spec(t, 2, 3, s1) == step_spec(s1, w));
        assert(arm_spec(t, 2, 4, s1) == step_spec(s1, w));
        assert(arm_spec(t, 5, 5, s2) == Some(s2));
        assert(step_spec(s2, Weapon::Moyen) == Some(s2));
    } else {
        assert(next_known(t, roster, 2) == 2);
        assert(next_known(t, roster, 4) == 5);
        assert(next_known(t, roster, 3) == 5);
        assert(arm_spec(t, 2, 2, s1) == Some(s1));
        assert(step_spec(s1, Weapon::Moyen) == Some(s1));
        assert(arm_spec(t, 3, 3, s2) == Some(s2));
        assert(arm_spec(t, 3, 4, s2) == step_spec(s2, w));
        assert(arm_spec(t, 3, 5, s2) == step_spec(s2, w));
    }
}

/// Of two commands that differ only in one combatant's weapon, a heavy
/// weapon leaves that combatant with strictly more force and strictly less
/// speed than a medium one.
pub proof fn lemma_command_heavy_against_medium(
    t1: Seq<String>,
    t2: Seq<String>,
    roster: Seq<Adventurer>,
    races: Seq<StatsRace>,
    k: int,
)
    requires
        single_weapon_command(t1, roster, k),
        single_weapon_command(t2, roster, k),
        same_but_category(t1, t2, k),
        t1[k + 2]@ == "Lourd"@,
        t2[k + 2]@ == "Moyen"@,
    ensures
        search_spec(t1, roster, races) is Ok,
        search_spec(t2, roster, races) is Ok,
        armed_side(search_spec(t1, roster, races), k).0 > armed_side(search_spec(t2, roster, races), k).0,
        armed_side(search_spec(t1, roster, races), k).1 < armed_side(search_spec(t2, roster, races), k).1,
{
    reveal_strlit("Leger");
    reveal_strlit("Moyen");
    reveal_strlit("Lourd");
    assert("Moyen"@[0] != "Leger"@[0] && "Lourd"@[1] != "Leger"@[1] && "Lourd"@[0] != "Moyen"@[0]);
    assert(weapon_of(t2[k + 2]@) == Weapon::Moyen);
    assert(t1[k + 2]@ == "Leger"@ || weapon_of(t1[k + 2]@) == Weapon::Lourd);
    lemma_single_weapon_search(t1, roster, races, k);
    lemma_single_weapon_search(t2, roster, races, k);
    assert(t1[1] == t2[1]);
    let a = named(roster, t1[if k == 1 { 4int } else { 2int }]@);
    assert(t1[if k == 1 { 4int } else { 2int }] == t2[if k == 1 { 4int } else { 2int }]);
    let x = if k == 1 { named(roster, t1[1]@) } else { a };
    let b = base_stats(x, races);
    lemma_base_range(x, races);
    lemma_heavy_against_medium(b.force as int, b.vitesse as int);
    lemma_armed_once_fits(b, Weapon::Lourd);
    lemma_armed_once_fits(b, Weapon::Moyen);
}

/// Of two commands that differ only in one combatant's weapon, a light
/// weapon leaves that combatant with strictly less force and strictly more
/// speed than a medium one.
pub proof fn lemma_command_light_against_medium(
    t1: Seq<String>,
    t2: Seq<String>,
    roster: Seq<Adventurer>,
    races: Seq<StatsRace>,
    k: int,
)
    requires
        single_weapon_command(t1, roster, k),
        single_weapon_command(t2, roster, k),
        same_but_category(t1, t2, k),
        t1[k + 2]@ == "Leger"@,
        t2[k + 2]@ == "Moyen"@,
    ensures
        search_spec(t1, roster, races) is Ok,
        search_spec(t2, roster, races) is Ok,
        armed_side(search_spec(t1, roster, races), k).0 < armed_side(search_spec(t2, roster, races), k).0,
        armed_side(search_spec(t1, roster, races), k).1 > armed_side(search_spec(t2, roster, races), k).1,
{
    reveal_strlit("Leger");
    reveal_strlit("Moyen");
    reveal_strlit("Lourd");
    assert("Moyen"@[0] != "Leger"@[0] && "Lourd"@[1] != "Leger"@[1] && "Lourd"@[0] != "Moyen"@[0]);
    assert(weapon_of(t2[k + 2]@) == Weapon::Moyen);
    assert(t1[k + 2]@ == "Leger"@ || weapon_of(t1[k + 2]@) == Weapon::Lourd);
    lemma_single_weapon_search(t1, roster, races, k);
    lemma_single_weapon_search(t2, roster, races, k);
    assert(t1[1] == t2[1]);
    let a = named(roster, t1[if k == 1 { 4int } else { 2int }]@);
    assert(t1[if k == 1 { 4int } else { 2int }] == t2[if k == 1 { 4int } else { 2int }]);
    let x = if k == 1 { named(roster, t1[1]@) } else { a };
    let b = base_stats(x, races);
    lemma_base_range(x, races);
    lemma_light_against_medium(b.force as int, b.vitesse as int);
    lemma_armed_once_fits(b, Weapon::Leger);
    lemma_armed_once_fits(b, Weapon::Moyen);
}

/// Two commands that differ only in an unrecognised category token (neither
/// `Leger`, `Moyen` nor `Lourd`) read the same combatants with the same stats.
pub proof fn lemma_command_unknown_tokens_agree(
    t1: Seq<String>,
    t2: Seq<String>,
    roster: Seq<Adventurer>,
    races: Seq<StatsRace>,
    k: int,
)
    requires
        single_weapon_command(t1, roster, k),
        single_weapon_command(t2, roster, k),
        same_but_category(t1, t2, k),
        t1[k + 2]@ != "Leger"@ && t1[k + 2]@ != "Moyen"@ && t1[k + 2]@ != "Lourd"@,
        t2[k + 2]@ != "Leger"@ && t2[k + 2]@ != "Moyen"@ && t2[k + 2]@ != "Lourd"@,
    ensures
        search_spec(t1, roster, races) is Ok,
        search_spec(t1, roster, races) == search_spec(t2, roster, races),
{
    lemma_single_weapon_search(t1, roster, races, k);
    lemma_single_weapon_search(t2, roster, races, k);
    assert(t1[1] == t2[1]);
    assert(t1[if k == 1 { 4int } else { 2int }] == t2[if k == 1 { 4int } else { 2int }]);
}

} // verus!
