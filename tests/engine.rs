use danjon_bot::adventurer::{find_adventurer, get_adventurer, Adventurer, Race};
use danjon_bot::combat::{attack_roll, search_entities, set_entity_stats, CombatError};
use danjon_bot::quarter::{round_up_quarter, Fraction};
use danjon_bot::resolve::{
    power_roll, result_roll_attack, result_roll_vitesse, speed_die, DiffStats, DiffStatsState,
    Entities, Entity,
};
use danjon_bot::stats::{calc_stats, get_race_stats, IvStats, Stats, StatsRace};
use danjon_bot::weapon::{apply_weapon, Armed, Weapon};

fn iv(force: u8) -> IvStats {
    IvStats { force, resistance: 0, vitesse: 0, resistance_magique: 0, force_magique: 0 }
}

fn race(name: &str, f: u8, r: u8, v: u8, fm: u8, rm: u8) -> StatsRace {
    StatsRace {
        race: name.to_string(),
        force: f,
        resistance: r,
        vitesse: v,
        force_magique: fm,
        resistance_magique: rm,
    }
}

fn races() -> Vec<StatsRace> {
    vec![race("Humain", 75, 50, 60, 40, 40), race("Elfe", 40, 60, 80, 50, 50)]
}

fn roster() -> Vec<Adventurer> {
    vec![
        Adventurer { name: "Aria".to_string(), race: Race::Humain, level: 10, iv: iv(0) },
        Adventurer { name: "Brom".to_string(), race: Race::Elfe, level: 5, iv: iv(10) },
    ]
}

fn tokens(s: &str) -> Vec<String> {
    s.split_whitespace().map(String::from).collect()
}

fn thresholds() -> DiffStats {
    DiffStats { faveur: 500, avantage: 1000, efficace: 2000, surpuissance: 4000, domination: 8000 }
}

fn entity(name: &str, level: u8, force: i64, resistance: i64, vitesse: i64) -> Entity {
    Entity {
        name: name.to_string(),
        level,
        force,
        resistance,
        vitesse,
        resistance_magique: 20,
        force_magique: 20,
    }
}

#[test]
fn round_up_moves_off_grid_value_to_next_quarter() {
    // 80.1 points = 320.4 quarters
    assert_eq!(round_up_quarter(Fraction { num: 3204, den: 10 }), 321);
}

#[test]
fn round_up_has_no_fixed_point() {
    // 80.0 points is on the grid and still moves up to 80.25
    assert_eq!(round_up_quarter(Fraction { num: 320, den: 1 }), 321);
    assert_eq!(round_up_quarter(Fraction { num: 0, den: 3 }), 1);
}

#[test]
fn round_up_drops_negative_remainder_toward_zero() {
    // -0.125 points: the remainder keeps the sign of the value
    assert_eq!(round_up_quarter(Fraction { num: -1, den: 2 }), 1);
    assert_eq!(round_up_quarter(Fraction { num: -3, den: 2 }), 0);
}

#[test]
fn calc_stats_concrete_force() {
    let base = race("Test", 75, 0, 0, 0, 0);
    let s = calc_stats(iv(0), 73, base, None);
    // raw 80.0 points, rounded up to 80.25
    assert_eq!(s.force, 321);
    // a zero baseline gives (0 * 75) / 150 + 5 = 5.0, rounded up to 5.25
    assert_eq!(s.resistance, 21);
}

#[test]
fn calc_stats_is_deterministic() {
    let a = calc_stats(iv(7), 12, race("Elfe", 40, 60, 80, 50, 50), None);
    let b = calc_stats(iv(7), 12, race("Elfe", 40, 60, 80, 50, 50), None);
    assert_eq!(a, b);
}

#[test]
fn calc_stats_modifier_force_applies_to_every_attribute() {
    let m = Stats { force: 40, resistance: 400, vitesse: 400, force_magique: 400, resistance_magique: 400 };
    let s = calc_stats(iv(0), 73, race("Test", 75, 0, 0, 0, 0), Some(m));
    // bonus of 10 points: (2 * 85) * 75 / 150 + 5 = 90.0, then 90.25
    assert_eq!(s.force, 361);
    // (2 * 10) * 75 / 150 + 5 = 15.0, then 15.25
    assert_eq!(s.resistance, 61);
    assert_eq!(s.vitesse, 61);
}

#[test]
fn calc_stats_level_zero_is_accepted() {
    let s = calc_stats(iv(0), 0, race("Test", 75, 0, 0, 0, 0), None);
    // 150 * 2 / 150 + 5 = 7.0, then 7.25
    assert_eq!(s.force, 29);
}

#[test]
fn race_lookup_takes_last_entry_with_the_name() {
    let list = vec![race("Elfe", 1, 1, 1, 1, 1), race("Elfe", 2, 3, 4, 5, 6)];
    let r = get_race_stats(&list, &"Elfe".to_string());
    assert_eq!(r.race, "Elfe");
    assert_eq!((r.force, r.resistance, r.vitesse, r.force_magique, r.resistance_magique), (2, 3, 4, 5, 6));
}

#[test]
fn unknown_race_gives_zero_baseline() {
    let r = get_race_stats(&races(), &"Dragon".to_string());
    assert_eq!(r.race, "Erreur");
    assert_eq!((r.force, r.resistance, r.vitesse, r.force_magique, r.resistance_magique), (0, 0, 0, 0, 0));
}

#[test]
fn race_names() {
    assert_eq!(Race::Jiaodan.name(), "JiaodanHumain");
    assert_eq!(Race::FerosumPassif.name(), "Ferosum Passif");
    assert_eq!(Race::JiaodanDragon.name(), "None");
    assert_eq!(Race::Stens.name(), "Stens");
}

#[test]
fn adventurer_lookup() {
    let r = roster();
    assert_eq!(find_adventurer(&r, &"Brom".to_string()), Some(1));
    assert_eq!(find_adventurer(&r, &"brom".to_string()), None);
    assert_eq!(get_adventurer(&r, &"Aria".to_string()).map(|a| a.level), Some(10));
}

#[test]
fn entity_from_character() {
    let e = set_entity_stats(&roster()[0], &races());
    assert_eq!(e.name, "Aria");
    assert_eq!(e.level, 10);
    assert_eq!((e.force, e.resistance, e.vitesse, e.force_magique, e.resistance_magique), (69, 53, 59, 46, 46));
}

#[test]
fn search_without_weapons_rounds_force_and_speed_again() {
    let e = search_entities(&tokens("?attack Aria Brom"), &roster(), &races()).unwrap();
    assert_eq!((e.entity_one.force, e.entity_one.vitesse, e.entity_one.resistance), (70, 60, 53));
    assert_eq!(e.entity_second.name, "Brom");
    assert_eq!((e.entity_second.force, e.entity_second.vitesse, e.entity_second.resistance), (38, 51, 43));
}

#[test]
fn heavy_weapon_on_first() {
    let e = search_entities(&tokens("?attack Aria -weapon Lourd Brom"), &roster(), &races()).unwrap();
    assert_eq!((e.entity_one.force, e.entity_one.vitesse), (76, 54));
    assert_eq!((e.entity_second.force, e.entity_second.vitesse), (38, 51));
}

#[test]
fn light_weapon_rounds_force_twice() {
    let e = search_entities(&tokens("?attack Aria -weapon Leger Brom"), &roster(), &races()).unwrap();
    assert_eq!((e.entity_one.force, e.entity_one.vitesse), (64, 62));
}

#[test]
fn light_weapon_on_second() {
    let e = search_entities(&tokens("?attack Aria Brom -weapon Leger"), &roster(), &races()).unwrap();
    // 9.25 * 0.9 = 8.325 points, rounded up twice: 8.5, then 8.75
    assert_eq!((e.entity_second.force, e.entity_second.vitesse), (35, 53));
}

#[test]
fn medium_weapon_changes_nothing() {
    let e = search_entities(&tokens("?attack Aria Brom -weapon Moyen"), &roster(), &races()).unwrap();
    assert_eq!((e.entity_second.force, e.entity_second.vitesse), (38, 51));
}

#[test]
fn unknown_weapon_tokens_agree() {
    let a = search_entities(&tokens("?attack Aria Brom -weapon Hache"), &roster(), &races()).unwrap();
    let b = search_entities(&tokens("?attack Aria Brom -weapon lourd"), &roster(), &races()).unwrap();
    assert_eq!((a.entity_second.force, a.entity_second.vitesse), (32, 54));
    assert_eq!((b.entity_second.force, b.entity_second.vitesse), (32, 54));
}

#[test]
fn weapon_effects_against_medium() {
    let s = Armed { force: Fraction { num: 100, den: 1 }, vitesse: Fraction { num: 100, den: 1 } };
    let moyen = apply_weapon(s, Weapon::Moyen).unwrap();
    let lourd = apply_weapon(s, Weapon::Lourd).unwrap();
    let leger = apply_weapon(s, Weapon::Leger).unwrap();
    let r = |f: Fraction| round_up_quarter(f);
    assert!(r(lourd.force) > r(moyen.force));
    assert!(r(lourd.vitesse) < r(moyen.vitesse));
    assert!(r(leger.force) < r(moyen.force));
    assert!(r(leger.vitesse) > r(moyen.vitesse));
    assert_eq!(leger.force, Fraction { num: 91, den: 1 });
}

#[test]
fn single_token_command_is_invalid_before_lookup() {
    let empty: Vec<Adventurer> = Vec::new();
    let r = search_entities(&tokens("?attack"), &empty, &races());
    assert!(matches!(r, Err(CombatError::InvalidInput)));
}

#[test]
fn unknown_first_name_is_not_found() {
    let r = search_entities(&tokens("?attack Zed Brom"), &roster(), &races());
    assert!(matches!(r, Err(CombatError::NotFound)));
}

#[test]
fn missing_second_combatant_is_invalid() {
    let r = search_entities(&tokens("?attack Aria -weapon Lourd"), &roster(), &races());
    assert!(matches!(r, Err(CombatError::InvalidInput)));
}

#[test]
fn trailing_weapon_marker_is_invalid() {
    let r = search_entities(&tokens("?attack Aria Brom -weapon"), &roster(), &races());
    assert!(matches!(r, Err(CombatError::InvalidInput)));
}

#[test]
fn trailing_weapon_marker_after_third_name_is_invalid() {
    let r = search_entities(&tokens("?attack Aria Brom Aria -weapon"), &roster(), &races());
    assert!(matches!(r, Err(CombatError::InvalidInput)));
}

#[test]
fn third_name_ends_second_scan() {
    let r = search_entities(&tokens("?attack Aria Brom Aria -weapon Lourd"), &roster(), &races()).unwrap();
    assert_eq!((r.entity_second.force, r.entity_second.vitesse), (38, 51));
}

fn pair(v1: i64, v2: i64) -> Entities {
    Entities { entity_one: entity("A", 2, 100, 100, v1), entity_second: entity("B", 2, 100, 100, v2) }
}

#[test]
fn speed_upset_on_highest_face() {
    // gap 10 points against thresholds scaled by level 2: below 16, above 8
    let e = pair(100, 60);
    assert_eq!(speed_die(&e, &thresholds()), Some(6));
    let upset = result_roll_vitesse(&e, &thresholds(), 6);
    assert_eq!(upset.gagnant, "B");
    assert_eq!(upset.perdant, "A");
    assert_eq!(upset.diff_vitesse, DiffStatsState::Souspuissance);
    let kept = result_roll_vitesse(&e, &thresholds(), 3);
    assert_eq!(kept.gagnant, "A");
    assert_eq!(kept.diff_vitesse, DiffStatsState::Surpuissance);
}

#[test]
fn speed_tie_treats_second_as_faster() {
    let e = pair(60, 60);
    assert_eq!(speed_die(&e, &thresholds()), Some(2));
    assert_eq!(result_roll_vitesse(&e, &thresholds(), 1).gagnant, "B");
    let up = result_roll_vitesse(&e, &thresholds(), 2);
    assert_eq!(up.gagnant, "A");
    assert_eq!(up.diff_vitesse, DiffStatsState::Neutre);
}

#[test]
fn speed_exactly_on_domination_has_no_roll() {
    let e = pair(124, 60);
    assert_eq!(speed_die(&e, &thresholds()), None);
    let r = result_roll_vitesse(&e, &thresholds(), 0);
    assert_eq!(r.gagnant, "A");
    assert_eq!(r.diff_vitesse, DiffStatsState::Neutre);
}

#[test]
fn speed_beyond_domination() {
    let e = pair(60, 128);
    assert_eq!(speed_die(&e, &thresholds()), None);
    let r = result_roll_vitesse(&e, &thresholds(), 0);
    assert_eq!(r.gagnant, "B");
    assert_eq!(r.diff_vitesse, DiffStatsState::Domination);
}

#[test]
fn speed_tiers_rise_with_the_gap() {
    let t = thresholds();
    let expected = [
        (61, DiffStatsState::Neutre),
        (64, DiffStatsState::Faveur),
        (72, DiffStatsState::Avantage),
        (80, DiffStatsState::Efficace),
        (100, DiffStatsState::Surpuissance),
        (140, DiffStatsState::Domination),
    ];
    for (v, tier) in expected {
        assert_eq!(result_roll_vitesse(&pair(v, 60), &t, 1).diff_vitesse, tier);
    }
}

#[test]
fn speed_stage_is_reproducible() {
    let e = pair(100, 60);
    let a = result_roll_attack(&e, &thresholds(), &thresholds(), 4);
    let b = result_roll_attack(&e, &thresholds(), &thresholds(), 4);
    assert_eq!(a.gagnant, b.gagnant);
    assert_eq!(a.perdant, b.perdant);
    assert_eq!(a.diff_vitesse, b.diff_vitesse);
    assert_eq!(a.diff_force, b.diff_force);
    assert_eq!(a.usure, b.usure);
}

#[test]
fn short_blow_keeps_the_winner() {
    let e = Entities {
        entity_one: entity("A", 1, 100, 100, 400),
        entity_second: entity("B", 1, 100, 200, 40),
    };
    let r = result_roll_attack(&e, &thresholds(), &thresholds(), 0);
    assert_eq!(r.gagnant, "A");
    assert_eq!(r.diff_vitesse, DiffStatsState::Domination);
    assert_eq!(r.diff_force, DiffStatsState::SousDomination);
    assert_eq!(r.usure, 32);
}

#[test]
fn power_tiers_of_blocked_blows() {
    let t = thresholds();
    let def = entity("B", 1, 0, 200, 0);
    let cases = [
        (200, DiffStatsState::Neutre, 12),
        (199, DiffStatsState::Neutre, 12),
        (198, DiffStatsState::SousFaveur, 16),
        (196, DiffStatsState::SousAvantage, 20),
        (192, DiffStatsState::SousEfficace, 24),
        (184, DiffStatsState::Souspuissance, 28),
        (168, DiffStatsState::SousDomination, 32),
    ];
    for (f, tier, usure) in cases {
        assert_eq!(power_roll(&entity("A", 1, f, 0, 0), &def, &t), (tier, usure));
    }
}

#[test]
fn power_tiers_of_landed_blows() {
    let t = thresholds();
    let def = entity("B", 1, 0, 200, 0);
    let cases = [
        (201, DiffStatsState::Neutre, 12),
        (202, DiffStatsState::Faveur, 8),
        (204, DiffStatsState::Avantage, 6),
        (208, DiffStatsState::Efficace, 4),
        (216, DiffStatsState::Surpuissance, 2),
        (232, DiffStatsState::Domination, 0),
    ];
    for (f, tier, usure) in cases {
        assert_eq!(power_roll(&entity("A", 1, f, 0, 0), &def, &t), (tier, usure));
    }
}

#[test]
fn end_to_end_force_gap() {
    // force 80.25 against resistance 60.0, both at level 10: a gap of 20.25
    // lies between the efficace (20) and surpuissance (40) thresholds
    let e = Entities {
        entity_one: entity("A", 10, 321, 100, 400),
        entity_second: entity("B", 10, 100, 240, 40),
    };
    let r = result_roll_attack(&e, &thresholds(), &thresholds(), 0);
    assert_eq!(r.gagnant, "A");
    assert_eq!(r.perdant, "B");
    assert_eq!(r.diff_force, DiffStatsState::Efficace);
    assert_eq!(r.usure, 4);
}

#[test]
fn same_name_strikes_as_first() {
    let e = Entities {
        entity_one: entity("A", 1, 300, 100, 60),
        entity_second: entity("A", 1, 100, 100, 100),
    };
    // the second is faster and keeps the lead, but carries the first's name
    let r = result_roll_attack(&e, &thresholds(), &thresholds(), 1);
    assert_eq!(r.gagnant, "A");
    assert_eq!(r.perdant, "A");
    assert_eq!(r.diff_force, DiffStatsState::Domination);
}

#[test]
fn attack_roll_resolves_a_command() {
    let r = attack_roll(&tokens("?attack Aria Brom"), &roster(), &races(), &thresholds(), &thresholds()).unwrap();
    assert!(r.gagnant == "Aria" || r.gagnant == "Brom");
    assert!(r.perdant != r.gagnant);
    assert_eq!(r.diff_vitesse, DiffStatsState::Neutre);
}

#[test]
fn attack_roll_throws_a_fair_die() {
    // the speed gap falls in the first bucket: a two-sided die decides
    let mut wins = (0, 0);
    for _ in 0..64 {
        let r = attack_roll(&tokens("?attack Aria Brom"), &roster(), &races(), &thresholds(), &thresholds()).unwrap();
        if r.gagnant == "Aria" {
            wins.0 += 1;
        } else {
            wins.1 += 1;
        }
    }
    assert!(wins.0 > 0 && wins.1 > 0);
}

#[test]
fn attack_roll_rejects_unordered_thresholds() {
    let bad = DiffStats { faveur: 500, avantage: 400, efficace: 2000, surpuissance: 4000, domination: 8000 };
    let r = attack_roll(&tokens("?attack Aria Brom"), &roster(), &races(), &thresholds(), &bad);
    assert!(matches!(r, Err(CombatError::ConfigError)));
    assert!(!bad.is_ordered());
    assert!(thresholds().is_ordered());
}

#[test]
fn attack_roll_reports_lookup_errors_first() {
    let bad = DiffStats { faveur: 0, avantage: 0, efficace: 0, surpuissance: 0, domination: 0 };
    let r = attack_roll(&tokens("?attack Zed Brom"), &roster(), &races(), &bad, &bad);
    assert!(matches!(r, Err(CombatError::NotFound)));
}

#[test]
fn tier_labels() {
    assert_eq!(DiffStatsState::SousDomination.label(), "une sous-domination");
    assert_eq!(DiffStatsState::Efficace.label(), "un efficace");
}

#[test]
fn heavy_against_medium_on_second_command() {
    let heavy = search_entities(&tokens("?attack Aria Brom -weapon Lourd"), &roster(), &races()).unwrap();
    let medium = search_entities(&tokens("?attack Aria Brom -weapon Moyen"), &roster(), &races()).unwrap();
    // force 9.25 * 1.1 = 10.175 -> 10.25; speed 12.5 * 0.9 = 11.25 -> 11.5
    assert_eq!((heavy.entity_second.force, heavy.entity_second.vitesse), (41, 46));
    assert!(heavy.entity_second.force > medium.entity_second.force);
    assert!(heavy.entity_second.vitesse < medium.entity_second.vitesse);
}
