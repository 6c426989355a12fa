use engine::{
    apply_stat_modifier, calc_damage_gen_1, calc_damage_gen_1_with_byte, DamageRoll, MoveCategory,
    MoveGen1, PokemonGen1, StatStagesGen1, StatsGen1, StatusGen1, TypeGen1,
};

fn pikachu() -> PokemonGen1 {
    PokemonGen1 {
        name: "Pikachu".into(),
        types: [TypeGen1::Electric, TypeGen1::NoType],
        stats: StatsGen1 { lvl: 50, hp: 35, attack: 55, defense: 30, special: 50, speed: 90 },
        ..Default::default()
    }
}

fn starmie() -> PokemonGen1 {
    PokemonGen1 {
        name: "Starmie".into(),
        types: [TypeGen1::Water, TypeGen1::Psychic],
        stats: StatsGen1 { lvl: 50, hp: 60, attack: 75, defense: 85, special: 95, speed: 115 },
        ..Default::default()
    }
}

fn thunderbolt() -> MoveGen1 {
    MoveGen1 {
        name: "Thunderbolt".into(),
        typ: TypeGen1::Electric,
        power: 90,
        category: MoveCategory::Special,
    }
}

#[test]
fn test_thunderbolt_vs_starmie() {
    let pikachu = pikachu();
    let starmie = starmie();
    let thunderbolt = thunderbolt();

    let min = calc_damage_gen_1(&pikachu, &starmie, &thunderbolt, false, DamageRoll::Min);
    let avg = calc_damage_gen_1(&pikachu, &starmie, &thunderbolt, false, DamageRoll::Average);
    let max = calc_damage_gen_1(&pikachu, &starmie, &thunderbolt, false, DamageRoll::Max);

    assert!(min < avg && avg < max);

    let random = calc_damage_gen_1(&pikachu, &starmie, &thunderbolt, false, DamageRoll::Random);

    assert!(random >= min && random <= max);
}

#[test]
fn test_gen_1_stat_modifiers() {
    assert_eq!(apply_stat_modifier(100, -1), 66);
    assert_eq!(apply_stat_modifier(101, -1), 67);
    assert_eq!(apply_stat_modifier(1, -6), 1);

    assert_eq!(apply_stat_modifier(100, 1), 150);
    assert_eq!(apply_stat_modifier(100, 6), 400);

    assert_eq!(apply_stat_modifier(255, 6), 1020);
    assert_eq!(apply_stat_modifier(0, 6), 1);
}

#[test]
fn test_critical_hit_ignores_stages() {
    let attacker = PokemonGen1 {
        stats: StatsGen1 { attack: 100, ..Default::default() },
        stat_stages: StatStagesGen1 { attack: -6, ..Default::default() },
        ..Default::default()
    };

    let defender = PokemonGen1 {
        stats: StatsGen1 { defense: 100, ..Default::default() },
        stat_stages: StatStagesGen1 { defense: 6, ..Default::default() },
        ..Default::default()
    };

    let move_ = MoveGen1 { category: MoveCategory::Physical, ..Default::default() };

    let crit_damage = calc_damage_gen_1(&attacker, &defender, &move_, true, DamageRoll::Max);
    let normal_damage = calc_damage_gen_1(&attacker, &defender, &move_, false, DamageRoll::Max);

    assert!(crit_damage > normal_damage)
}

#[test]
fn test_burn_penalty() {
    let charizard = PokemonGen1 {
        stats: StatsGen1 { attack: 100, ..Default::default() },
        status: StatusGen1::Burned,
        ..Default::default()
    };

    let tackle = MoveGen1 { category: MoveCategory::Physical, power: 40, ..Default::default() };

    let min = calc_damage_gen_1(&charizard, &PokemonGen1::default(), &tackle, false, DamageRoll::Min);
    let avg =
        calc_damage_gen_1(&charizard, &PokemonGen1::default(), &tackle, false, DamageRoll::Average);
    let max = calc_damage_gen_1(&charizard, &PokemonGen1::default(), &tackle, false, DamageRoll::Max);

    assert!(min < avg && avg < max);
}

#[test]
fn thunderbolt_vs_starmie_exact_rolls() {
    let (p, s, t) = (pikachu(), starmie(), thunderbolt());
    // base 22, x1.5 same type, x2 against Water: 66 before the roll.
    assert_eq!(calc_damage_gen_1(&p, &s, &t, false, DamageRoll::Min), 56);
    assert_eq!(calc_damage_gen_1(&p, &s, &t, false, DamageRoll::Average), 61);
    assert_eq!(calc_damage_gen_1(&p, &s, &t, false, DamageRoll::Max), 66);
}

#[test]
fn physical_same_type_scenario_at_level_fifty() {
    let attacker = PokemonGen1 {
        types: [TypeGen1::Normal, TypeGen1::NoType],
        stats: StatsGen1 { lvl: 50, attack: 55, ..Default::default() },
        ..Default::default()
    };
    let defender = PokemonGen1 {
        types: [TypeGen1::Normal, TypeGen1::NoType],
        stats: StatsGen1 { lvl: 50, defense: 30, ..Default::default() },
        ..Default::default()
    };
    let strength = MoveGen1 {
        name: "Strength".into(),
        typ: TypeGen1::Normal,
        power: 90,
        category: MoveCategory::Physical,
    };
    // ((2 * 50 / 5 + 2) * 90 * 55) / (30 * 50) + 2 = 74; 74 * 1.5 = 111.
    assert_eq!(calc_damage_gen_1(&attacker, &defender, &strength, false, DamageRoll::Max), 111);
    assert_eq!(calc_damage_gen_1(&attacker, &defender, &strength, false, DamageRoll::Average), 102);
    assert_eq!(calc_damage_gen_1(&attacker, &defender, &strength, false, DamageRoll::Min), 94);
}

#[test]
fn critical_and_staged_damage_exact() {
    let attacker = PokemonGen1 {
        stats: StatsGen1 { attack: 100, ..Default::default() },
        stat_stages: StatStagesGen1 { attack: -6, ..Default::default() },
        ..Default::default()
    };
    let defender = PokemonGen1 {
        stats: StatsGen1 { defense: 100, ..Default::default() },
        stat_stages: StatStagesGen1 { defense: 6, ..Default::default() },
        ..Default::default()
    };
    let move_ = MoveGen1::default();
    assert_eq!(calc_damage_gen_1(&attacker, &defender, &move_, true, DamageRoll::Max), 126);
    assert_eq!(calc_damage_gen_1(&attacker, &defender, &move_, false, DamageRoll::Max), 6);
    // Without stages a critical hit gives the same.
    let plain_attacker = PokemonGen1 { stat_stages: StatStagesGen1::default(), ..attacker.clone() };
    let plain_defender = PokemonGen1 { stat_stages: StatStagesGen1::default(), ..defender.clone() };
    assert_eq!(
        calc_damage_gen_1(&plain_attacker, &plain_defender, &move_, true, DamageRoll::Max),
        126
    );
}

#[test]
fn burn_halves_physical_attack_exactly() {
    let healthy = PokemonGen1 {
        stats: StatsGen1 { attack: 100, ..Default::default() },
        ..Default::default()
    };
    let burned = PokemonGen1 { status: StatusGen1::Burned, ..healthy.clone() };
    let tackle = MoveGen1 { category: MoveCategory::Physical, power: 40, ..Default::default() };
    let target = PokemonGen1::default();
    // Attack 100 becomes 50: base 1682 instead of 3362.
    assert_eq!(calc_damage_gen_1(&burned, &target, &tackle, false, DamageRoll::Max), 2523);
    assert_eq!(calc_damage_gen_1(&healthy, &target, &tackle, false, DamageRoll::Max), 5043);
    assert_eq!(calc_damage_gen_1(&burned, &target, &tackle, false, DamageRoll::Min), 2147);
    assert_eq!(calc_damage_gen_1(&burned, &target, &tackle, false, DamageRoll::Average), 2335);
}

#[test]
fn burn_leaves_special_moves_alone() {
    let healthy = pikachu();
    let burned = PokemonGen1 { status: StatusGen1::Burned, ..pikachu() };
    let (s, t) = (starmie(), thunderbolt());
    for roll in [DamageRoll::Min, DamageRoll::Average, DamageRoll::Max] {
        assert_eq!(
            calc_damage_gen_1(&burned, &s, &t, false, roll),
            calc_damage_gen_1(&healthy, &s, &t, false, roll)
        );
    }
}

#[test]
fn other_statuses_change_nothing() {
    let (s, t) = (starmie(), thunderbolt());
    let expected = calc_damage_gen_1(&pikachu(), &s, &t, false, DamageRoll::Max);
    for status in [
        StatusGen1::Poisoned,
        StatusGen1::Paralyzed,
        StatusGen1::Asleep(3),
        StatusGen1::Frozen,
    ] {
        let p = PokemonGen1 { status, ..pikachu() };
        assert_eq!(calc_damage_gen_1(&p, &s, &t, false, DamageRoll::Max), expected);
    }
}

#[test]
fn self_destructing_moves_halve_defense() {
    let attacker = PokemonGen1 {
        stats: StatsGen1 { lvl: 50, attack: 55, ..Default::default() },
        ..Default::default()
    };
    let defender = PokemonGen1 {
        types: [TypeGen1::Water, TypeGen1::NoType],
        stats: StatsGen1 { lvl: 50, defense: 30, ..Default::default() },
        ..Default::default()
    };
    let named = |name: &str| MoveGen1 {
        name: name.into(),
        typ: TypeGen1::Normal,
        power: 130,
        category: MoveCategory::Physical,
    };
    assert_eq!(calc_damage_gen_1(&attacker, &defender, &named("Selfdestruct"), false, DamageRoll::Max), 316);
    assert_eq!(calc_damage_gen_1(&attacker, &defender, &named("Explosion"), false, DamageRoll::Max), 316);
    assert_eq!(calc_damage_gen_1(&attacker, &defender, &named("Headbutt"), false, DamageRoll::Max), 159);
}

#[test]
fn moves_without_power_deal_nothing() {
    let growl = MoveGen1 {
        name: "Growl".into(),
        typ: TypeGen1::Normal,
        power: 0,
        category: MoveCategory::Status,
    };
    let zero_physical = MoveGen1 { power: 0, ..Default::default() };
    for roll in [DamageRoll::Min, DamageRoll::Average, DamageRoll::Max, DamageRoll::Random] {
        for crit in [false, true] {
            assert_eq!(calc_damage_gen_1(&pikachu(), &starmie(), &growl, crit, roll), 0);
            assert_eq!(calc_damage_gen_1(&pikachu(), &starmie(), &zero_physical, crit, roll), 0);
            assert_eq!(calc_damage_gen_1_with_byte(&pikachu(), &starmie(), &growl, crit, roll, 7), 0);
        }
    }
}

#[test]
fn random_roll_uses_the_given_byte() {
    let (p, s, t) = (pikachu(), starmie(), thunderbolt());
    // 66 before the roll; factor 217 + byte % 39.
    assert_eq!(calc_damage_gen_1_with_byte(&p, &s, &t, false, DamageRoll::Random, 0), 56);
    assert_eq!(calc_damage_gen_1_with_byte(&p, &s, &t, false, DamageRoll::Random, 38), 66);
    assert_eq!(calc_damage_gen_1_with_byte(&p, &s, &t, false, DamageRoll::Random, 39), 56);
    assert_eq!(calc_damage_gen_1_with_byte(&p, &s, &t, false, DamageRoll::Random, 255), 61);
    // The fixed rolls ignore the byte.
    assert_eq!(calc_damage_gen_1_with_byte(&p, &s, &t, false, DamageRoll::Max, 0), 66);
    assert_eq!(calc_damage_gen_1_with_byte(&p, &s, &t, false, DamageRoll::Min, 200), 56);
}

#[test]
fn random_rolls_stay_between_min_and_max() {
    let (p, s, t) = (pikachu(), starmie(), thunderbolt());
    let min = calc_damage_gen_1(&p, &s, &t, false, DamageRoll::Min);
    let max = calc_damage_gen_1(&p, &s, &t, false, DamageRoll::Max);
    for _ in 0..500 {
        let r = calc_damage_gen_1(&p, &s, &t, false, DamageRoll::Random);
        assert!(min <= r && r <= max);
    }
}

#[test]
fn stages_are_clamped() {
    assert_eq!(apply_stat_modifier(100, 100), 400);
    assert_eq!(apply_stat_modifier(100, -100), 25);
    assert_eq!(apply_stat_modifier(100, i8::MIN), 25);
    assert_eq!(apply_stat_modifier(100, i8::MAX), 400);
    assert_eq!(apply_stat_modifier(100, 0), 100);
    assert_eq!(apply_stat_modifier(100, -2), 50);
}

#[test]
fn stage_modifier_is_monotone_and_floored() {
    for base in 0..=255u8 {
        let mut previous = 0;
        for stage in -8..=8i8 {
            let v = apply_stat_modifier(base, stage);
            assert!(v >= previous);
            assert!(v >= 1);
            previous = v;
        }
    }
    for stage in -8..=8i8 {
        assert_eq!(apply_stat_modifier(0, stage), 1);
    }
}

#[test]
fn huge_damage_saturates() {
    let attacker = PokemonGen1 {
        types: [TypeGen1::Water, TypeGen1::NoType],
        stats: StatsGen1 { lvl: 255, attack: 255, ..Default::default() },
        stat_stages: StatStagesGen1 { attack: 6, ..Default::default() },
        ..Default::default()
    };
    let defender = PokemonGen1 {
        types: [TypeGen1::Fire, TypeGen1::Ground],
        stats: StatsGen1 { defense: 1, ..Default::default() },
        stat_stages: StatStagesGen1 { defense: -6, ..Default::default() },
        ..Default::default()
    };
    let surf = MoveGen1 {
        name: "Crabhammer".into(),
        typ: TypeGen1::Water,
        power: 255,
        category: MoveCategory::Physical,
    };
    assert_eq!(calc_damage_gen_1(&attacker, &defender, &surf, false, DamageRoll::Max), 65535);
    assert_eq!(calc_damage_gen_1(&attacker, &defender, &surf, false, DamageRoll::Min), 55769);
}
