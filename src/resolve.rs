use vstd::prelude::*;

verus! {

/// The magnitude of an outcome, from the worst upset to full domination.
#[derive(Clone, Copy, Debug, PartialEq, Eq, Structural)]
pub enum DiffStatsState {
    SousDomination,
    Souspuissance,
    SousEfficace,
    SousAvantage,
    SousFaveur,
    Neutre,
    Faveur,
    Avantage,
    Efficace,
    Surpuissance,
    Domination,
}

pub open spec fn tier_rank(s: DiffStatsState) -> int {
    match s {
        DiffStatsState::SousDomination => -5,
        DiffStatsState::Souspuissance => -4,
        DiffStatsState::SousEfficace => -3,
        DiffStatsState::SousAvantage => -2,
        DiffStatsState::SousFaveur => -1,
        DiffStatsState::Neutre => 0,
        DiffStatsState::Faveur => 1,
        DiffStatsState::Avantage => 2,
        DiffStatsState::Efficace => 3,
        DiffStatsState::Surpuissance => 4,
        DiffStatsState::Domination => 5,
    }
}

/// The label shown for a tier.
pub open spec fn tier_label(s: DiffStatsState) -> Seq<char> {
    match s {
        DiffStatsState::SousDomination => "une sous-domination"@,
        DiffStatsState::Souspuissance => "une sous-puissance"@,
        DiffStatsState::SousEfficace => "un sous-efficace"@,
        DiffStatsState::SousAvantage => "un sous-avantage"@,
        DiffStatsState::SousFaveur => "une sous-faveur"@,
        DiffStatsState::Neutre => "un neutre"@,
        DiffStatsState::Faveur => "une faveur"@,
        DiffStatsState::Avantage => "un avantage"@,
        DiffStatsState::Efficace => "un efficace"@,
        DiffStatsState::Surpuissance => "une surpuissance"@,
        DiffStatsState::Domination => "une domination"@,
    }
}

impl DiffStatsState {
    /// The label shown for the tier.
    pub fn label(&self) -> (r: String)
        ensures
            r@ == tier_label(*self),
    {
        match self {
            DiffStatsState::SousDomination => "une sous-domination".to_owned(),
            DiffStatsState::Souspuissance => "une sous-puissance".to_owned(),
            DiffStatsState::SousEfficace => "un sous-efficace".to_owned(),
            DiffStatsState::SousAvantage => "un sous-avantage".to_owned(),
            DiffStatsState::SousFaveur => "une sous-faveur".to_owned(),
            DiffStatsState::Neutre => "un neutre".to_owned(),
            DiffStatsState::Faveur => "une faveur".to_owned(),
            DiffStatsState::Avantage => "un avantage".to_owned(),
            DiffStatsState::Efficace => "un efficace".to_owned(),
            DiffStatsState::Surpuissance => "une surpuissance".to_owned(),
            DiffStatsState::Domination => "une domination".to_owned(),
        }
    }
}

/// The five differential thresholds, in thousandths of a point per level.
#[derive(Clone, Copy, Debug, PartialEq, Eq)]
pub struct DiffStats {
    pub faveur: i64,
    pub avantage: i64,
    pub efficace: i64,
    pub surpuissance: i64,
    pub domination: i64,
}

impl DiffStats {
    /// The thresholds rise strictly.
    pub open spec fn wf(self) -> bool {
        self.faveur < self.avantage < self.efficace < self.surpuissance < self.domination
    }

    pub fn is_ordered(&self) -> (r: bool)
        ensures
            r == self.wf(),
    {
        self.faveur < self.avantage && self.avantage < self.efficace && self.efficace
            < self.surpuissance && self.surpuissance < self.domination
    }
}

/// A combatant as the resolver sees it; stats in quarters of a point.
pub struct Entity {
    pub name: String,
    pub level: u8,
    pub force: i64,
    pub resistance: i64,
    pub vitesse: i64,
    pub resistance_magique: i64,
    pub force_magique: i64,
}

/// The two combatants of one exchange, in the order they were named.
pub struct Entities {
    pub entity_one: Entity,
    pub entity_second: Entity,
}

/// The outcome of one exchange. `usure` is the durability loss in quarters of
/// a point.
pub struct AttackResult {
    pub gagnant: String,
    pub perdant: String,
    pub diff_vitesse: DiffStatsState,
    pub diff_force: DiffStatsState,
    pub usure: u8,
}

/// Whether a gap of `x` quarters lies below threshold `t` (thousandths) scaled
/// by `level`: `x / 4 < t * level / 1000`.
pub open spec fn below(x: int, t: i64, level: u8) -> bool {
    250 * x < t * level
}

fn mul_level(t: i64, level: u8) -> (r: i128)
    ensures
        r == t * level,
{
    assert(-0x8000_0000_0000_0000 * 255 <= t * level <= 0x8000_0000_0000_0000 * 255) by (nonlinear_arith)
        requires
            -0x8000_0000_0000_0000 <= t <= 0x8000_0000_0000_0000,
            0 <= level <= 255,
    ;
    (t as i128) * (level as i128)
}

fn below_exec(x: i128, t: i64, level: u8) -> (r: bool)
    requires
        -0x4_0000_0000_0000_0000 <= x <= 0x4_0000_0000_0000_0000,
    ensures
        r == below(x as int, t, level),
{
    let lim: i128 = mul_level(t, level);
    250 * x < lim
}

/// The bucket of a speed gap: the first threshold it lies below (0 to 4),
/// else 5 when it exceeds domination, else 6 (exactly at domination).
pub open spec fn speed_bucket_of(diff: int, t: DiffStats, level: u8) -> int {
    if below(diff, t.faveur, level) {
        0
    } else if below(diff, t.avantage, level) {
        1
    } else if below(diff, t.efficace, level) {
        2
    } else if below(diff, t.surpuissance, level) {
        3
    } else if below(diff, t.domination, level) {
        4
    } else if 250 * diff > t.domination * level {
        5
    } else {
        6
    }
}

/// The speed tier of a bucket when the faster combatant keeps the lead.
pub open spec fn plain_speed_tier(b: int) -> DiffStatsState {
    if b == 1 {
        DiffStatsState::Faveur
    } else if b == 2 {
        DiffStatsState::Avantage
    } else if b == 3 {
        DiffStatsState::Efficace
    } else if b == 4 {
        DiffStatsState::Surpuissance
    } else if b == 5 {
        DiffStatsState::Domination
    } else {
        DiffStatsState::Neutre
    }
}

/// The speed tier of a bucket when the slower combatant wins on the roll.
pub open spec fn upset_speed_tier(b: int) -> DiffStatsState {
    if b == 1 {
        DiffStatsState::SousFaveur
    } else if b == 2 {
        DiffStatsState::SousAvantage
    } else if b == 3 {
        DiffStatsState::SousEfficace
    } else if b == 4 {
        DiffStatsState::Souspuissance
    } else {
        DiffStatsState::Neutre
    }
}

/// Whether the first combatant is strictly faster; on equal speed the second
/// one counts as the faster.
pub open spec fn one_faster(e: Entities) -> bool {
    e.entity_one.vitesse > e.entity_second.vitesse
}

/// The speed bucket of an exchange: the gap between the faster and the slower
/// combatant, against the thresholds scaled by the slower one's level.
pub open spec fn speed_bucket(e: Entities, t: DiffStats) -> int {
    if one_faster(e) {
        speed_bucket_of(
            e.entity_one.vitesse - e.entity_second.vitesse,
            t,
            e.entity_second.level,
        )
    } else {
        speed_bucket_of(e.entity_second.vitesse - e.entity_one.vitesse, t, e.entity_one.level)
    }
}

/// The number of sides of the die thrown for a bucket, if one is thrown.
pub open spec fn sides_of(b: int) -> Option<u8> {
    if b <= 4 {
        Some((b + 2) as u8)
    } else {
        None
    }
}

/// Whether the die shows its highest face, which hands the win to the slower
/// combatant.
pub open spec fn is_upset(e: Entities, t: DiffStats, roll: u8) -> bool {
    speed_bucket(e, t) <= 4 && roll == speed_bucket(e, t) + 2
}

/// Whether the first combatant wins the speed stage.
pub open spec fn first_wins_speed(e: Entities, t: DiffStats, roll: u8) -> bool {
    one_faster(e) != is_upset(e, t, roll)
}

pub open spec fn speed_tier(e: Entities, t: DiffStats, roll: u8) -> DiffStatsState {
    if is_upset(e, t, roll) {
        upset_speed_tier(speed_bucket(e, t))
    } else {
        plain_speed_tier(speed_bucket(e, t))
    }
}

pub open spec fn speed_winner_name(e: Entities, t: DiffStats, roll: u8) -> Seq<char> {
    if first_wins_speed(e, t, roll) {
        e.entity_one.name@
    } else {
        e.entity_second.name@
    }
}

/// The loser is the other combatant, found by name: when both carry the same
/// name, the second is named the loser.
pub open spec fn loser_name(e: Entities, winner: Seq<char>) -> Seq<char> {
    if winner == e.entity_one.name@ {
        e.entity_second.name@
    } else {
        e.entity_one.name@
    }
}

fn speed_bucket_exec(diff: i128, t: &DiffStats, level: u8) -> (r: u8)
    requires
        0 <= diff <= 0x2_0000_0000_0000_0000,
    ensures
        r == speed_bucket_of(diff as int, *t, level),
{
    if below_exec(diff, t.faveur, level) {
        0
    } else if below_exec(diff, t.avantage, level) {
        1
    } else if below_exec(diff, t.efficace, level) {
        2
    } else if below_exec(diff, t.surpuissance, level) {
        3
    } else if below_exec(diff, t.domination, level) {
        4
    } else if 250 * diff > mul_level(t.domination, level) {
        5
    } else {
        6
    }
}

fn speed_bucket_of_entities(e: &Entities, t: &DiffStats) -> (r: u8)
    ensures
        r == speed_bucket(*e, *t),
{
    let one = &e.entity_one;
    let two = &e.entity_second;
    if one.vitesse > two.vitesse {
        speed_bucket_exec(one.vitesse as i128 - two.vitesse as i128, t, two.level)
    } else {
        speed_bucket_exec(two.vitesse as i128 - one.vitesse as i128, t, one.level)
    }
}

/// The number of sides of the die that the speed stage throws, or `None` when
/// the gap settles it without a throw.
pub fn speed_die(e: &Entities, t: &DiffStats) -> (r: Option<u8>)
    ensures
        r == sides_of(speed_bucket(*e, *t)),
{
    let b = speed_bucket_of_entities(e, t);
    if b <= 4 {
        Some(b + 2)
    } else {
        None
    }
}

/// The speed stage. The faster combatant keeps the lead unless `roll`, the
/// face shown by the die of `speed_die`, is its highest face; the tier comes
/// from the gap's bucket. The power tier is left neutral with no loss.
pub fn result_roll_vitesse(e: &Entities, t: &DiffStats, roll: u8) -> (r: AttackResult)
    ensures
        r.gagnant@ == speed_winner_name(*e, *t, roll),
        r.perdant@ == loser_name(*e, r.gagnant@),
        r.diff_vitesse == speed_tier(*e, *t, roll),
        r.diff_force == DiffStatsState::Neutre,
        r.usure == 0,
{
    let b = speed_bucket_of_entities(e, t);
    let upset = b <= 4 && roll as u16 == b as u16 + 2;
    let first_wins = (e.entity_one.vitesse > e.entity_second.vitesse) != upset;
    let tier = if upset {
        match b {
            1 => DiffStatsState::SousFaveur,
            2 => DiffStatsState::SousAvantage,
            3 => DiffStatsState::SousEfficace,
            4 => DiffStatsState::Souspuissance,
            _ => DiffStatsState::Neutre,
        }
    } else {
        match b {
            1 => DiffStatsState::Faveur,
            2 => DiffStatsState::Avantage,
            3 => DiffStatsState::Efficace,
            4 => DiffStatsState::Surpuissance,
            5 => DiffStatsState::Domination,
            _ => DiffStatsState::Neutre,
        }
    };
    let gagnant = if first_wins {
        e.entity_one.name.clone()
    } else {
        e.entity_second.name.clone()
    };
    let perdant = if gagnant == e.entity_one.name {
        e.entity_second.name.clone()
    } else {
        e.entity_one.name.clone()
    };
    AttackResult { gagnant, perdant, diff_vitesse: tier, diff_force: DiffStatsState::Neutre, usure: 0 }
}

/// The bucket of a force gap: the first threshold it lies below (0 to 4),
/// else 5.
pub open spec fn power_bucket_of(x: int, t: DiffStats, level: u8) -> int {
    if below(x, t.faveur, level) {
        0
    } else if below(x, t.avantage, level) {
        1
    } else if below(x, t.efficace, level) {
        2
    } else if below(x, t.surpuissance, level) {
        3
    } else if below(x, t.domination, level) {
        4
    } else {
        5
    }
}

/// The tier of a blow whose force does not exceed the defender's resistance.
pub open spec fn blocked_tier(b: int) -> DiffStatsState {
    if b == 0 {
        DiffStatsState::Neutre
    } else if b == 1 {
        DiffStatsState::SousFaveur
    } else if b == 2 {
        DiffStatsState::SousAvantage
    } else if b == 3 {
        DiffStatsState::SousEfficace
    } else if b == 4 {
        DiffStatsState::Souspuissance
    } else {
        DiffStatsState::SousDomination
    }
}

/// The tier of a blow whose force exceeds the defender's resistance.
pub open spec fn landed_tier(b: int) -> DiffStatsState {
    if b == 0 {
        DiffStatsState::Neutre
    } else if b == 1 {
        DiffStatsState::Faveur
    } else if b == 2 {
        DiffStatsState::Avantage
    } else if b == 3 {
        DiffStatsState::Efficace
    } else if b == 4 {
        DiffStatsState::Surpuissance
    } else {
        DiffStatsState::Domination
    }
}

/// Durability loss, in quarters, of a blocked blow: 3 points, then one more
/// point for each bucket up to 8.
pub open spec fn blocked_usure(b: int) -> int {
    12 + 4 * b
}

/// Durability loss, in quarters, of a landed blow: 3, 2, 1.5, 1, 0.5, 0 points.
pub open spec fn landed_usure(b: int) -> int {
    if b == 0 {
        12
    } else if b == 1 {
        8
    } else if b == 2 {
        6
    } else if b == 3 {
        4
    } else if b == 4 {
        2
    } else {
        0
    }
}

/// The power tier of a blow. When the attacker's force does not exceed the
/// defender's resistance, the shortfall is measured against the thresholds
/// scaled by the attacker's level; otherwise the excess is measured against
/// the thresholds scaled by the defender's level.
pub open spec fn power_tier(att: Entity, def: Entity, t: DiffStats) -> DiffStatsState {
    let delta = att.force - def.resistance;
    if delta <= 0 {
        blocked_tier(power_bucket_of(-delta, t, att.level))
    } else {
        landed_tier(power_bucket_of(delta, t, def.level))
    }
}

pub open spec fn power_usure(att: Entity, def: Entity, t: DiffStats) -> int {
    let delta = att.force - def.resistance;
    if delta <= 0 {
        blocked_usure(power_bucket_of(-delta, t, att.level))
    } else {
        landed_usure(power_bucket_of(delta, t, def.level))
    }
}

fn power_bucket_exec(x: i128, t: &DiffStats, level: u8) -> (r: u8)
    requires
        0 <= x <= 0x2_0000_0000_0000_0000,
    ensures
        r == power_bucket_of(x as int, *t, level),
{
    if below_exec(x, t.faveur, level) {
        0
    } else if below_exec(x, t.avantage, level) {
        1
    } else if below_exec(x, t.efficace, level) {
        2
    } else if below_exec(x, t.surpuissance, level) {
        3
    } else if below_exec(x, t.domination, level) {
        4
    } else {
        5
    }
}

/// The power stage: how well the attacker's blow connects, and the
/// durability that the attacker's weapon loses, in quarters.
pub fn power_roll(att: &Entity, def: &Entity, t: &DiffStats) -> (r: (DiffStatsState, u8))
    ensures
        r.0 == power_tier(*att, *def, *t),
        r.1 == power_usure(*att, *def, *t),
{
    let delta: i128 = att.force as i128 - def.resistance as i128;
    if delta <= 0 {
        let b = power_bucket_exec(-delta, t, att.level);
        let tier = match b {
            0 => DiffStatsState::Neutre,
            1 => DiffStatsState::SousFaveur,
            2 => DiffStatsState::SousAvantage,
            3 => DiffStatsState::SousEfficace,
            4 => DiffStatsState::Souspuissance,
            _ => DiffStatsState::SousDomination,
        };
        (tier, 12 + 4 * b)
    } else {
        let b = power_bucket_exec(delta, t, def.level);
        match b {
            0 => (DiffStatsState::Neutre, 12),
            1 => (DiffStatsState::Faveur, 8),
            2 => (DiffStatsState::Avantage, 6),
            3 => (DiffStatsState::Efficace, 4),
            4 => (DiffStatsState::Surpuissance, 2),
            _ => (DiffStatsState::Domination, 0),
        }
    }
}

/// The combatant that strikes: the first one when the speed winner carries
/// its name, else the second.
pub open spec fn striker(e: Entities, winner: Seq<char>) -> Entity {
    if winner == e.entity_one.name@ {
        e.entity_one
    } else {
        e.entity_second
    }
}

pub open spec fn struck(e: Entities, winner: Seq<char>) -> Entity {
    if winner == e.entity_one.name@ {
        e.entity_second
    } else {
        e.entity_one
    }
}

/// Whether `r` is the outcome of one exchange between the combatants of `e`:
/// the speed stage against `speed_t` with die face `roll`, then the power
/// stage of the speed winner against `power_t`.
pub open spec fn exchange(r: AttackResult, e: Entities, speed_t: DiffStats, power_t: DiffStats, roll: u8) -> bool {
    &&& r.gagnant@ == speed_winner_name(e, speed_t, roll)
    &&& r.perdant@ == loser_name(e, r.gagnant@)
    &&& r.diff_vitesse == speed_tier(e, speed_t, roll)
    &&& r.diff_force == power_tier(striker(e, r.gagnant@), struck(e, r.gagnant@), power_t)
    &&& r.usure == power_usure(striker(e, r.gagnant@), struck(e, r.gagnant@), power_t)
}

/// One full exchange: the speed stage against `speed_t` with the die face
/// `roll`, then the power stage of the speed winner against `power_t`, a
/// snapshot of the thresholds of its own.
pub fn result_roll_attack(e: &Entities, speed_t: &DiffStats, power_t: &DiffStats, roll: u8) -> (r:
    AttackResult)
    ensures
        exchange(r, *e, *speed_t, *power_t, roll),
{
    let speed = result_roll_vitesse(e, speed_t, roll);
    let (tier, usure) = if speed.gagnant == e.entity_one.name {
        power_roll(&e.entity_one, &e.entity_second, power_t)
    } else {
        power_roll(&e.entity_second, &e.entity_one, power_t)
    };
    AttackResult {
        gagnant: speed.gagnant,
        perdant: speed.perdant,
        diff_vitesse: speed.diff_vitesse,
        diff_force: tier,
        usure,
    }
}

/// A blow from a speed winner whose force falls short of the defender's
/// resistance never lands: its tier is neutre or an under-tier, and the
/// weapon loses at least 3 points of durability. Once the shortfall reaches
/// the faveur threshold scaled by the attacker's level, the tier is an
/// under-tier. The speed winner stays the named winner all the same, as the
/// contract of `result_roll_attack` states.
pub proof fn lemma_short_blow(att: Entity, def: Entity, t: DiffStats)
    requires
        att.force < def.resistance,
    ensures
        tier_rank(power_tier(att, def, t)) <= 0,
        power_usure(att, def, t) >= 12,
        !below(def.resistance - att.force, t.faveur, att.level) ==> tier_rank(
            power_tier(att, def, t),
        ) < 0,
{
}

/// With the thresholds' level fixed, a larger speed gap never gives a lower
/// tier to a faster combatant that keeps the lead, except at a gap exactly on
/// the scaled domination threshold, which falls back to a neutre.
pub proof fn lemma_speed_tier_monotone(d1: int, d2: int, t: DiffStats, level: u8)
    requires
        0 <= d1 <= d2,
        250 * d2 != t.domination * level,
    ensures
        tier_rank(plain_speed_tier(speed_bucket_of(d1, t, level))) <= tier_rank(
            plain_speed_tier(speed_bucket_of(d2, t, level)),
        ),
{
}

/// The speed stage is reproducible: the same combatants, thresholds and die
/// face give the same winner, loser and tier.
pub proof fn lemma_speed_reproducible(
    e1: Entities,
    t1: DiffStats,
    roll1: u8,
    e2: Entities,
    t2: DiffStats,
    roll2: u8,
)
    requires
        e1 == e2,
        t1 == t2,
        roll1 == roll2,
    ensures
        speed_winner_name(e1, t1, roll1) == speed_winner_name(e2, t2, roll2),
        loser_name(e1, speed_winner_name(e1, t1, roll1)) == loser_name(
            e2,
            speed_winner_name(e2, t2, roll2),
        ),
        speed_tier(e1, t1, roll1) == speed_tier(e2, t2, roll2),
{
}

} // verus!
