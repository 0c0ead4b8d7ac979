use directory::pokemon::attributes::growth_rate::GrowthRate;

const RATES: [GrowthRate; 6] = [
    GrowthRate::Fluctuating,
    GrowthRate::Slow,
    GrowthRate::MediumSlow,
    GrowthRate::MediumFast,
    GrowthRate::Fast,
    GrowthRate::Erratic,
];

#[test]
fn experience_for_level_matches_published_formulas() {
    assert_eq!(GrowthRate::Fluctuating.experience_for_level(2), 4);
    assert_eq!(GrowthRate::Fluctuating.experience_for_level(3), 13);
    assert_eq!(GrowthRate::Fluctuating.experience_for_level(10), 540);
    assert_eq!(GrowthRate::Fluctuating.experience_for_level(15), 1957);
    assert_eq!(GrowthRate::Fluctuating.experience_for_level(16), 2457);
    assert_eq!(GrowthRate::Fluctuating.experience_for_level(36), 46656);
    assert_eq!(GrowthRate::Fluctuating.experience_for_level(37), 50653);
    assert_eq!(GrowthRate::Fluctuating.experience_for_level(50), 142500);
    assert_eq!(GrowthRate::Fluctuating.experience_for_level(51), 151222);
    assert_eq!(GrowthRate::Fluctuating.experience_for_level(68), 415050);
    assert_eq!(GrowthRate::Fluctuating.experience_for_level(69), 433631);
    assert_eq!(GrowthRate::Fluctuating.experience_for_level(98), 1524731);
    assert_eq!(GrowthRate::Fluctuating.experience_for_level(99), 1571884);
    assert_eq!(GrowthRate::Fluctuating.experience_for_level(100), 1640000);
    assert_eq!(GrowthRate::Slow.experience_for_level(2), 10);
    assert_eq!(GrowthRate::Slow.experience_for_level(3), 33);
    assert_eq!(GrowthRate::Slow.experience_for_level(10), 1250);
    assert_eq!(GrowthRate::Slow.experience_for_level(15), 4218);
    assert_eq!(GrowthRate::Slow.experience_for_level(16), 5120);
    assert_eq!(GrowthRate::Slow.experience_for_level(36), 58320);
    assert_eq!(GrowthRate::Slow.experience_for_level(37), 63316);
    assert_eq!(GrowthRate::Slow.experience_for_level(50), 156250);
    assert_eq!(GrowthRate::Slow.experience_for_level(51), 165813);
    assert_eq!(GrowthRate::Slow.experience_for_level(68), 393040);
    assert_eq!(GrowthRate::Slow.experience_for_level(69), 410636);
    assert_eq!(GrowthRate::Slow.experience_for_level(98), 1176490);
    assert_eq!(GrowthRate::Slow.experience_for_level(99), 1212873);
    assert_eq!(GrowthRate::Slow.experience_for_level(100), 1250000);
    assert_eq!(GrowthRate::MediumSlow.experience_for_level(2), 9);
    assert_eq!(GrowthRate::MediumSlow.experience_for_level(3), 57);
    assert_eq!(GrowthRate::MediumSlow.experience_for_level(10), 560);
    assert_eq!(GrowthRate::MediumSlow.experience_for_level(15), 2035);
    assert_eq!(GrowthRate::MediumSlow.experience_for_level(16), 2535);
    assert_eq!(GrowthRate::MediumSlow.experience_for_level(36), 40007);
    assert_eq!(GrowthRate::MediumSlow.experience_for_level(37), 43808);
    assert_eq!(GrowthRate::MediumSlow.experience_for_level(50), 117360);
    assert_eq!(GrowthRate::MediumSlow.experience_for_level(51), 125126);
    assert_eq!(GrowthRate::MediumSlow.experience_for_level(68), 314618);
    assert_eq!(GrowthRate::MediumSlow.experience_for_level(69), 329555);
    assert_eq!(GrowthRate::MediumSlow.experience_for_level(98), 995030);
    assert_eq!(GrowthRate::MediumSlow.experience_for_level(99), 1027103);
    assert_eq!(GrowthRate::MediumSlow.experience_for_level(100), 1059860);
    assert_eq!(GrowthRate::MediumFast.experience_for_level(2), 8);
    assert_eq!(GrowthRate::MediumFast.experience_for_level(3), 27);
    assert_eq!(GrowthRate::MediumFast.experience_for_level(10), 1000);
    assert_eq!(GrowthRate::MediumFast.experience_for_level(15), 3375);
    assert_eq!(GrowthRate::MediumFast.experience_for_level(16), 4096);
    assert_eq!(GrowthRate::MediumFast.experience_for_level(36), 46656);
    assert_eq!(GrowthRate::MediumFast.experience_for_level(37), 50653);
    assert_eq!(GrowthRate::MediumFast.experience_for_level(50), 125000);
    assert_eq!(GrowthRate::MediumFast.experience_for_level(51), 132651);
    assert_eq!(GrowthRate::MediumFast.experience_for_level(68), 314432);
    assert_eq!(GrowthRate::MediumFast.experience_for_level(69), 328509);
    assert_eq!(GrowthRate::MediumFast.experience_for_level(98), 941192);
    assert_eq!(GrowthRate::MediumFast.experience_for_level(99), 970299);
    assert_eq!(GrowthRate::MediumFast.experience_for_level(100), 1000000);
    assert_eq!(GrowthRate::Fast.experience_for_level(2), 6);
    assert_eq!(GrowthRate::Fast.experience_for_level(3), 21);
    assert_eq!(GrowthRate::Fast.experience_for_level(10), 800);
    assert_eq!(GrowthRate::Fast.experience_for_level(15), 2700);
    assert_eq!(GrowthRate::Fast.experience_for_level(16), 3276);
    assert_eq!(GrowthRate::Fast.experience_for_level(36), 37324);
    assert_eq!(GrowthRate::Fast.experience_for_level(37), 40522);
    assert_eq!(GrowthRate::Fast.experience_for_level(50), 100000);
    assert_eq!(GrowthRate::Fast.experience_for_level(51), 106120);
    assert_eq!(GrowthRate::Fast.experience_for_level(68), 251545);
    assert_eq!(GrowthRate::Fast.experience_for_level(69), 262807);
    assert_eq!(GrowthRate::Fast.experience_for_level(98), 752953);
    assert_eq!(GrowthRate::Fast.experience_for_level(99), 776239);
    assert_eq!(GrowthRate::Fast.experience_for_level(100), 800000);
    assert_eq!(GrowthRate::Erratic.experience_for_level(2), 15);
    assert_eq!(GrowthRate::Erratic.experience_for_level(3), 52);
    assert_eq!(GrowthRate::Erratic.experience_for_level(10), 1800);
    assert_eq!(GrowthRate::Erratic.experience_for_level(15), 5737);
    assert_eq!(GrowthRate::Erratic.experience_for_level(16), 6881);
    assert_eq!(GrowthRate::Erratic.experience_for_level(36), 59719);
    assert_eq!(GrowthRate::Erratic.experience_for_level(37), 63822);
    assert_eq!(GrowthRate::Erratic.experience_for_level(50), 125000);
    assert_eq!(GrowthRate::Erratic.experience_for_level(51), 131324);
    assert_eq!(GrowthRate::Erratic.experience_for_level(68), 257834);
    assert_eq!(GrowthRate::Erratic.experience_for_level(69), 267406);
    assert_eq!(GrowthRate::Erratic.experience_for_level(98), 583539);
    assert_eq!(GrowthRate::Erratic.experience_for_level(99), 591882);
    assert_eq!(GrowthRate::Erratic.experience_for_level(100), 600000);
}

#[test]
fn levels_zero_and_one_need_no_experience() {
    for rate in RATES {
        assert_eq!(rate.experience_for_level(0), 0);
        assert_eq!(rate.experience_for_level(1), 0);
    }
}

#[test]
fn medium_slow_level_two_does_not_saturate() {
    // positive = 6 * 8 / 5 + 200 = 209, negative = 15 * 4 + 140 = 200
    assert_eq!(GrowthRate::MediumSlow.experience_for_level(2), 9);
}

#[test]
fn experience_strictly_increases_from_level_one() {
    for rate in RATES {
        for level in 1..100 {
            assert!(rate.experience_for_level(level) < rate.experience_for_level(level + 1));
        }
    }
}

#[test]
fn level_of_level_experience_round_trips() {
    for rate in RATES {
        for level in 1..=100 {
            assert_eq!(rate.level(rate.experience_for_level(level)), level);
        }
    }
}

#[test]
fn level_zero_does_not_round_trip() {
    for rate in RATES {
        assert_eq!(rate.level(rate.experience_for_level(0)), 1);
    }
}

#[test]
fn level_between_thresholds_rounds_down() {
    for rate in RATES {
        for level in 1..100 {
            let next = rate.experience_for_level(level + 1);
            assert_eq!(rate.level(next - 1), level);
        }
    }
}

#[test]
fn level_caps_at_one_hundred() {
    for rate in RATES {
        assert_eq!(rate.level(u32::MAX), 100);
        assert_eq!(rate.level(rate.experience_for_level(100) + 12345), 100);
    }
    assert_eq!(GrowthRate::MediumFast.level(1_000_000), 100);
    assert_eq!(GrowthRate::MediumFast.level(999_999), 99);
}

#[test]
fn level_is_monotonic_in_experience() {
    for rate in RATES {
        let mut previous = rate.level(0);
        for experience in (0..1_700_000u32).step_by(997) {
            let level = rate.level(experience);
            assert!(level >= previous);
            previous = level;
        }
    }
}

#[test]
fn exp_table_rows_follow_declaration_order() {
    let table = GrowthRate::compute_exp_table();
    for (row, rate) in GrowthRate::VARIANTS.iter().enumerate() {
        assert_eq!(rate.index(), row);
        for level in 0..=100u32 {
            assert_eq!(table[row][level as usize], rate.experience_for_level(level));
        }
    }
    assert_eq!(table[3][100], 1_000_000);
    assert_eq!(table[0][36], 46_656);
    assert_eq!(table[5][99], 591_882);
}

#[test]
fn variants_cover_every_rate_once() {
    assert_eq!(GrowthRate::COUNT, 6);
    for (i, rate) in RATES.iter().enumerate() {
        assert_eq!(GrowthRate::VARIANTS[i], *rate);
    }
}

#[test]
fn exp_table_is_the_computed_table() {
    assert_eq!(GrowthRate::EXP_TABLE, GrowthRate::compute_exp_table());
    assert_eq!(GrowthRate::EXP_TABLE[3][100], 1_000_000);
    assert_eq!(GrowthRate::EXP_TABLE[5][100], 600_000);
    assert_eq!(GrowthRate::EXP_TABLE[0][100], 1_640_000);
}
