use directory::pokemon::attributes::nature::Nature;
use directory::pokemon::attributes::stats::Stat;

const NATURES: [Nature; 25] = [
    Nature::Hardy,
    Nature::Lonely,
    Nature::Adamant,
    Nature::Naughty,
    Nature::Brave,
    Nature::Bold,
    Nature::Docile,
    Nature::Impish,
    Nature::Lax,
    Nature::Relaxed,
    Nature::Modest,
    Nature::Mild,
    Nature::Bashful,
    Nature::Rash,
    Nature::Quiet,
    Nature::Calm,
    Nature::Gentle,
    Nature::Careful,
    Nature::Quirky,
    Nature::Sassy,
    Nature::Timid,
    Nature::Hasty,
    Nature::Jolly,
    Nature::Naive,
    Nature::Serious,
];

#[test]
fn stat_changes_table() {
    assert_eq!(Nature::Hardy.stat_changes(), (Stat::Attack, Stat::Attack));
    assert_eq!(Nature::Adamant.stat_changes(), (Stat::Attack, Stat::SpecialAttack));
    assert_eq!(Nature::Bold.stat_changes(), (Stat::Defence, Stat::Attack));
    assert_eq!(Nature::Modest.stat_changes(), (Stat::SpecialAttack, Stat::Attack));
    assert_eq!(Nature::Calm.stat_changes(), (Stat::SpecialDefence, Stat::Attack));
    assert_eq!(Nature::Sassy.stat_changes(), (Stat::SpecialDefence, Stat::Speed));
    assert_eq!(Nature::Timid.stat_changes(), (Stat::Speed, Stat::Attack));
    assert_eq!(Nature::Jolly.stat_changes(), (Stat::Speed, Stat::SpecialAttack));
    assert_eq!(Nature::Serious.stat_changes(), (Stat::Speed, Stat::Speed));
}

#[test]
fn from_repr_follows_declaration_order() {
    for (i, nature) in NATURES.iter().enumerate() {
        assert_eq!(Nature::from_repr(i), Some(*nature));
    }
    assert_eq!(Nature::from_repr(25), None);
    assert_eq!(Nature::COUNT, 25);
}

#[test]
fn modifiers() {
    assert_eq!(Nature::Adamant.get_modifier_percent(Stat::Attack), 110);
    assert_eq!(Nature::Adamant.get_modifier_percent(Stat::SpecialAttack), 90);
    assert_eq!(Nature::Adamant.get_modifier_percent(Stat::Speed), 100);
    assert_eq!(Nature::Adamant.get_modifier_percent(Stat::Health), 100);
    assert_eq!(Nature::Hardy.get_modifier_percent(Stat::Attack), 100);
}

#[test]
fn neutral_natures_change_nothing() {
    for nature in [Nature::Hardy, Nature::Docile, Nature::Bashful, Nature::Quirky, Nature::Serious] {
        let (up, down) = nature.stat_changes();
        assert_eq!(up, down);
        for stat in Stat::VARIANTS {
            assert_eq!(nature.get_modifier_percent(stat), 100);
        }
    }
}

#[test]
fn other_natures_raise_one_and_lower_one() {
    for nature in NATURES {
        let (up, down) = nature.stat_changes();
        if up == down {
            continue;
        }
        let raised = Stat::VARIANTS.iter().filter(|s| nature.get_modifier_percent(**s) == 110).count();
        let lowered = Stat::VARIANTS.iter().filter(|s| nature.get_modifier_percent(**s) == 90).count();
        assert_eq!(raised, 1);
        assert_eq!(lowered, 1);
        assert_eq!(nature.get_modifier_percent(Stat::Health), 100);
    }
}

#[test]
fn default_nature_is_hardy() {
    assert_eq!(Nature::default(), Nature::Hardy);
}

#[test]
fn sampled_natures_vary() {
    let mut rng = rand::rng();
    let mut seen = std::collections::HashSet::new();
    for _ in 0..500 {
        seen.insert(Nature::sample(&mut rng));
    }
    assert!(seen.len() > 15);
}

#[test]
fn nature_modifier_constants() {
    assert_eq!(Nature::NATURE_MODIFIER_PERCENT, 10);
    assert_eq!(Nature::NATURE_UP_PERCENT, 110);
    assert_eq!(Nature::NATURE_DOWN_PERCENT, 90);
}
