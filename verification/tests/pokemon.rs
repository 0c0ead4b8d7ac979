use directory::pokemon::attributes::gender::Gender;
use directory::pokemon::attributes::growth_rate::GrowthRate;
use directory::pokemon::attributes::nature::Nature;
use directory::pokemon::attributes::stats::{Stat, Stats};
use directory::pokemon::attributes::types::Type;
use directory::pokemon::{BasePokemon, Pokemon};

fn sylveon() -> BasePokemon {
    BasePokemon::new(
        "Sylveon".to_string(),
        "sylveon".to_string(),
        (Type::Fairy, None),
        Stats::new([95, 65, 65, 110, 130, 60]),
        "Cute Charm".to_string(),
        Stats::new([0, 0, 0, 0, 2, 0]),
        45,
        50,
        184,
        GrowthRate::MediumFast,
        vec![(1, vec![0])],
    )
}

#[test]
fn level_fifty_modest_stats() {
    let base = sylveon();
    let experience = base.growth_rate().experience_for_level(50);
    let pokemon = Pokemon::new(
        &base,
        experience,
        Stats::new([0; 6]),
        Stats::new([31; 6]),
        Nature::Modest,
        Gender::Female,
        [None, None, None, None],
    );
    assert_eq!(pokemon.level(), 50);
    assert_eq!(pokemon.stat(Stat::Health), 170);
    assert_eq!(pokemon.stat(Stat::Attack), 121);
    assert_eq!(pokemon.stat(Stat::Defence), 135);
    assert_eq!(pokemon.stat(Stat::SpecialAttack), 198);
    assert_eq!(pokemon.stat(Stat::SpecialDefence), 200);
    assert_eq!(pokemon.stat(Stat::Speed), 130);
    assert_eq!(pokemon.stats(), Stats::new([170, 121, 135, 198, 200, 130]));
}

#[test]
fn effort_values_count_in_quarters() {
    let base = sylveon();
    let pokemon = Pokemon::new(
        &base,
        1_000_000,
        Stats::new([252, 0, 0, 0, 0, 3]),
        Stats::new([0; 6]),
        Nature::Hardy,
        Gender::Genderless,
        [None, None, None, None],
    );
    assert_eq!(pokemon.level(), 100);
    // Health: (190 + 0 + 63) * 100 / 100 + 100 + 10
    assert_eq!(pokemon.stat(Stat::Health), 363);
    // Speed: (120 + 0 + 0) + 100 + 5
    assert_eq!(pokemon.stat(Stat::Speed), 225);
}

#[test]
fn level_one_stats() {
    let base = sylveon();
    let pokemon = Pokemon::new(
        &base,
        0,
        Stats::new([0; 6]),
        Stats::new([0; 6]),
        Nature::Hardy,
        Gender::Male,
        [None, None, None, None],
    );
    assert_eq!(pokemon.level(), 1);
    // Health: 190 / 100 + 1 + 10
    assert_eq!(pokemon.stat(Stat::Health), 12);
}

#[test]
fn out_of_range_stats_are_detected() {
    let base = sylveon();
    let pokemon = Pokemon::new(
        &base,
        1_000_000,
        Stats::new([0; 6]),
        Stats::new([u32::MAX; 6]),
        Nature::Hardy,
        Gender::Male,
        [None, None, None, None],
    );
    assert!(!pokemon.stat_in_range(Stat::Attack));
    let fine = Pokemon::new(
        &base,
        1_000_000,
        Stats::new([0; 6]),
        Stats::new([31; 6]),
        Nature::Hardy,
        Gender::Male,
        [None, None, None, None],
    );
    assert!(fine.stat_in_range(Stat::Attack));
}

#[test]
fn species_accessors() {
    let base = sylveon();
    assert_eq!(base.growth_rate(), GrowthRate::MediumFast);
    assert_eq!(base.types(), (Type::Fairy, None));
    assert_eq!(base.stats().stat(Stat::SpecialDefence), 130);
    assert_eq!(base.learnset().len(), 1);
}

#[test]
fn gender_from_repr() {
    assert_eq!(Gender::from_repr(0), Some(Gender::Female));
    assert_eq!(Gender::from_repr(2), Some(Gender::Genderless));
    assert_eq!(Gender::from_repr(3), None);
    assert_eq!(Gender::default(), Gender::Genderless);
}
