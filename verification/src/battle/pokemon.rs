use vstd::prelude::*;

verus! {

/// How far a battle stage may move from zero in either direction.
pub const STAGE_BOUND: i8 = 6;

/// A battle stage of a statistic, from -6 to 6.
pub type StatStage = i8;

/// A lasting condition a Pokémon can suffer in battle.
#[derive(Clone, Copy, Debug, Hash, PartialEq, Eq, Structural)]
pub enum Status {
    Frozen,
    Paralyzed,
    Burned,
    Asleep,
    Confused,
}

/// `value` brought into `-6..=6`.
pub fn clamp_stage(value: i8) -> (stage: StatStage)
    ensures
        value < -STAGE_BOUND ==> stage == -STAGE_BOUND,
        value > STAGE_BOUND ==> stage == STAGE_BOUND,
        -STAGE_BOUND <= value <= STAGE_BOUND ==> stage == value,
{
    if value < -STAGE_BOUND {
        -STAGE_BOUND
    } else if value > STAGE_BOUND {
        STAGE_BOUND
    } else {
        value
    }
}

/// The multiplier a battle stage applies, as a fraction `(numerator,
/// denominator)`: `base / (base + |stage|)` below zero and
/// `(base + |stage|) / base` from zero up.
pub fn stage_to_multiplier_ratio(stage: StatStage, base: u8) -> (ratio: (u32, u32))
    requires
        stage > i8::MIN,
    ensures
        stage < 0 ==> ratio == (base as u32, (base - stage) as u32),
        stage >= 0 ==> ratio == ((base + stage) as u32, base as u32),
{
    let magnitude: u32 = if stage < 0 { (-stage) as u32 } else { stage as u32 };
    if stage < 0 {
        (base as u32, magnitude + base as u32)
    } else {
        (magnitude + base as u32, base as u32)
    }
}

} // verus!
