use directory::pokemon::attributes::stats::{Stat, StatBound, Stats, StatsDistribution};

#[test]
fn stat_reads_the_value_at_the_stat_position() {
    let stats = Stats::new([1u32, 2, 3, 4, 5, 6]);
    assert_eq!(stats.stat(Stat::Health), 1);
    assert_eq!(stats.stat(Stat::Attack), 2);
    assert_eq!(stats.stat(Stat::Defence), 3);
    assert_eq!(stats.stat(Stat::SpecialAttack), 4);
    assert_eq!(stats.stat(Stat::SpecialDefence), 5);
    assert_eq!(stats.stat(Stat::Speed), 6);
}

#[test]
fn set_stat_changes_only_that_stat() {
    let mut stats = Stats::new([1u32, 2, 3, 4, 5, 6]);
    stats.set_stat(Stat::Defence, 99);
    assert_eq!(stats, Stats::new([1, 2, 99, 4, 5, 6]));
    assert_eq!(stats.stat(Stat::Defence), 99);
}

#[test]
fn from_iter_fills_missing_stats_with_default() {
    let stats = Stats::<u32>::from_iter(vec![(Stat::Attack, 5), (Stat::Speed, 7)]);
    assert_eq!(stats, Stats::new([0, 5, 0, 0, 0, 7]));
}

#[test]
fn from_iter_later_entries_win() {
    let stats = Stats::<u32>::from_iter(vec![(Stat::Attack, 5), (Stat::Attack, 9), (Stat::Health, 1)]);
    assert_eq!(stats, Stats::new([1, 9, 0, 0, 0, 0]));
}

#[test]
fn from_iter_works_for_signed_stages() {
    let stages = Stats::<i8>::from_iter(vec![(Stat::Speed, -2)]);
    assert_eq!(stages.stat(Stat::Speed), -2);
    assert_eq!(stages.stat(Stat::Health), 0);
}

#[test]
fn default_stats_are_all_zero() {
    let stats: Stats<u32> = Stats::default();
    assert_eq!(stats, Stats::new([0; 6]));
}

#[test]
fn map_applies_to_every_stat() {
    let stats = Stats::new([1u32, 2, 3, 4, 5, 6]);
    let doubled = stats.map(|x: u32| -> u64 { x as u64 * 2 });
    assert_eq!(doubled, Stats::new([2u64, 4, 6, 8, 10, 12]));
}

#[test]
fn required_entries_build_stats() {
    let entries = vec![
        (Stat::Speed, 60),
        (Stat::Health, 95),
        (Stat::Attack, 65),
        (Stat::Defence, 65),
        (Stat::SpecialAttack, 110),
        (Stat::SpecialDefence, 130),
    ];
    assert_eq!(Stats::from_required_entries(entries), Ok(Stats::new([95, 65, 65, 110, 130, 60])));
}

#[test]
fn required_entries_report_first_missing_stat() {
    let entries = vec![(Stat::Health, 1), (Stat::Speed, 2), (Stat::Attack, 3)];
    assert_eq!(Stats::from_required_entries(entries), Err(Stat::Defence));
    assert_eq!(Stats::from_required_entries(vec![]), Err(Stat::Health));
}

#[test]
fn variants_follow_declaration_order() {
    assert_eq!(Stat::COUNT, 6);
    for (i, stat) in Stat::VARIANTS.iter().enumerate() {
        assert_eq!(stat.index(), i);
    }
}

#[test]
fn distribution_samples_stay_in_inclusive_range() {
    let dist = StatsDistribution::new(StatBound::Included(0), StatBound::Included(31));
    let mut rng = rand::rng();
    for _ in 0..200 {
        let stats = dist.sample(&mut rng);
        for stat in Stat::VARIANTS {
            assert!(stats.stat(stat) <= 31);
        }
    }
}

#[test]
fn distribution_handles_excluded_bounds() {
    let dist = StatsDistribution::new(StatBound::Excluded(10), StatBound::Excluded(13));
    let mut rng = rand::rng();
    let mut seen = [false; 2];
    for _ in 0..200 {
        let stats = dist.sample(&mut rng);
        for stat in Stat::VARIANTS {
            let v = stats.stat(stat);
            assert!(v == 11 || v == 12);
            seen[(v - 11) as usize] = true;
        }
    }
    assert!(seen[0] && seen[1]);
}

#[test]
fn distribution_single_value_range() {
    let dist = StatsDistribution::new(StatBound::Included(7), StatBound::Excluded(8));
    let mut rng = rand::rng();
    assert_eq!(dist.sample(&mut rng), Stats::new([7; 6]));
}

#[test]
fn distribution_samples_vary() {
    let dist = StatsDistribution::new(StatBound::Included(0), StatBound::Included(252));
    let mut rng = rand::rng();
    let mut values = std::collections::HashSet::new();
    for _ in 0..50 {
        let stats = dist.sample(&mut rng);
        for stat in Stat::VARIANTS {
            values.insert(stats.stat(stat));
        }
    }
    assert!(values.len() > 10);
}

#[test]
fn distribution_unbounded_range() {
    let dist = StatsDistribution::new(StatBound::Unbounded, StatBound::Unbounded);
    let mut rng = rand::rng();
    let _ = dist.sample(&mut rng);
}

#[test]
fn stats_add_statistic_by_statistic() {
    let a = Stats::new([1u32, 2, 3, 4, 5, 6]);
    let b = Stats::new([10u32, 20, 30, 40, 50, 60]);
    assert_eq!(a + b, Stats::new([11, 22, 33, 44, 55, 66]));
}

#[test]
fn stats_sub_statistic_by_statistic() {
    let a = Stats::new([10u32, 20, 30, 40, 50, 60]);
    let b = Stats::new([1u32, 2, 3, 4, 5, 6]);
    assert_eq!(a - b, Stats::new([9, 18, 27, 36, 45, 54]));
}

#[test]
fn stats_mul_statistic_by_statistic() {
    let a = Stats::new([1u32, 2, 3, 4, 5, 6]);
    let b = Stats::new([2u32, 3, 4, 5, 6, 7]);
    assert_eq!(a * b, Stats::new([2, 6, 12, 20, 30, 42]));
}

#[test]
fn stats_div_statistic_by_statistic() {
    let a = Stats::new([10u32, 20, 30, 40, 50, 60]);
    let b = Stats::new([3u32, 4, 7, 8, 10, 7]);
    assert_eq!(a / b, Stats::new([3, 5, 4, 5, 5, 8]));
}

#[test]
fn stats_ops_with_a_scalar() {
    let a = Stats::new([4u32, 8, 12, 16, 20, 24]);
    assert_eq!(a + 1, Stats::new([5, 9, 13, 17, 21, 25]));
    assert_eq!(a - 4, Stats::new([0, 4, 8, 12, 16, 20]));
    assert_eq!(a * 2, Stats::new([8, 16, 24, 32, 40, 48]));
    assert_eq!(a / 4, Stats::new([1, 2, 3, 4, 5, 6]));
}

#[test]
fn stats_ops_on_signed_values() {
    let a = Stats::new([-2i8, -1, 0, 1, 2, 3]);
    assert_eq!(a - Stats::new([1i8; 6]), Stats::new([-3, -2, -1, 0, 1, 2]));
    assert_eq!(a * -1, Stats::new([2, 1, 0, -1, -2, -3]));
}

#[test]
fn new_is_equal_exactly_for_equal_arrays() {
    assert_eq!(Stats::new([1u32, 2, 3, 4, 5, 6]), Stats::new([1u32, 2, 3, 4, 5, 6]));
    assert_ne!(Stats::new([1u32, 2, 3, 4, 5, 6]), Stats::new([1u32, 2, 3, 4, 5, 7]));
    assert_eq!(Stats::new([u32::default(); 6]), Stats::<u32>::default());
}

#[test]
fn map_identity_constant_and_composition() {
    let s = Stats::new([1u32, 2, 3, 4, 5, 6]);
    assert_eq!(s.map(|x| x), s);
    assert_eq!(s.map(|_| 7u32), Stats::new([7u32; 6]));
    let f = |x: u32| x + 1;
    let g = |x: u32| 2 * x;
    assert_eq!(s.map(f).map(g), s.map(|x| g(f(x))));
    assert_eq!(s.map(|x| g(f(x))), Stats::new([4, 6, 8, 10, 12, 14]));
}
