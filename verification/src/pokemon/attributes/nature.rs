use crate::pokemon::attributes::stats::Stat;
use crate::random::random_below;
use rand::rngs::ThreadRng;
use vstd::prelude::*;

verus! {

/// A Pokémon's nature: it raises one statistic by a tenth and lowers
/// another by a tenth, or leaves all of them alone.
#[derive(Clone, Copy, Debug, PartialEq, Eq, Hash, Structural)]
pub enum Nature {
    Hardy,
    Lonely,
    Adamant,
    Naughty,
    Brave,
    Bold,
    Docile,
    Impish,
    Lax,
    Relaxed,
    Modest,
    Mild,
    Bashful,
    Rash,
    Quiet,
    Calm,
    Gentle,
    Careful,
    Quirky,
    Sassy,
    Timid,
    Hasty,
    Jolly,
    Naive,
    Serious,
}

impl Default for Nature {
    fn default() -> (nature: Self)
        ensures
            nature == Nature::Hardy,
    {
        Nature::Hardy
    }
}

impl Nature {
    /// Number of natures.
    pub const COUNT: usize = 25;

    /// How much a nature changes a statistic, in percent.
    pub const NATURE_MODIFIER_PERCENT: u32 = 10;

    /// The factor, in percent, for the statistic a nature raises.
    pub const NATURE_UP_PERCENT: u32 = 100 + Nature::NATURE_MODIFIER_PERCENT;

    /// The factor, in percent, for the statistic a nature lowers.
    pub const NATURE_DOWN_PERCENT: u32 = 100 - Nature::NATURE_MODIFIER_PERCENT;

    /// Position of this nature in declaration order.
    pub open spec fn spec_index(self) -> int {
        match self {
            Nature::Hardy => 0,
            Nature::Lonely => 1,
            Nature::Adamant => 2,
            Nature::Naughty => 3,
            Nature::Brave => 4,
            Nature::Bold => 5,
            Nature::Docile => 6,
            Nature::Impish => 7,
            Nature::Lax => 8,
            Nature::Relaxed => 9,
            Nature::Modest => 10,
            Nature::Mild => 11,
            Nature::Bashful => 12,
            Nature::Rash => 13,
            Nature::Quiet => 14,
            Nature::Calm => 15,
            Nature::Gentle => 16,
            Nature::Careful => 17,
            Nature::Quirky => 18,
            Nature::Sassy => 19,
            Nature::Timid => 20,
            Nature::Hasty => 21,
            Nature::Jolly => 22,
            Nature::Naive => 23,
            Nature::Serious => 24,
        }
    }

    /// The nature at position `index` in declaration order, if there is one.
    pub fn from_repr(index: usize) -> (nature: Option<Nature>)
        ensures
            index < Nature::COUNT <==> nature is Some,
            nature matches Some(n) ==> n.spec_index() == index,
    {
        match index {
            0 => Some(Nature::Hardy),
            1 => Some(Nature::Lonely),
            2 => Some(Nature::Adamant),
            3 => Some(Nature::Naughty),
            4 => Some(Nature::Brave),
            5 => Some(Nature::Bold),
            6 => Some(Nature::Docile),
            7 => Some(Nature::Impish),
            8 => Some(Nature::Lax),
            9 => Some(Nature::Relaxed),
            10 => Some(Nature::Modest),
            11 => Some(Nature::Mild),
            12 => Some(Nature::Bashful),
            13 => Some(Nature::Rash),
            14 => Some(Nature::Quiet),
            15 => Some(Nature::Calm),
            16 => Some(Nature::Gentle),
            17 => Some(Nature::Careful),
            18 => Some(Nature::Quirky),
            19 => Some(Nature::Sassy),
            20 => Some(Nature::Timid),
            21 => Some(Nature::Hasty),
            22 => Some(Nature::Jolly),
            23 => Some(Nature::Naive),
            24 => Some(Nature::Serious),
            _ => None,
        }
    }

    /// The statistic this nature raises: natures come in rows of five,
    /// one row per raised statistic in the order Attack, Defence, Special
    /// Attack, Special Defence, Speed.
    pub open spec fn raised(self) -> Stat {
        Stat::VARIANTS[1 + self.spec_index() / 5]
    }

    /// The statistic this nature lowers: within each row, the lowered
    /// statistic runs through the same five statistics in the same order.
    pub open spec fn lowered(self) -> Stat {
        Stat::VARIANTS[1 + self.spec_index() % 5]
    }

    /// The statistic raised and the statistic lowered, in that order; a
    /// nature that names the same statistic twice changes nothing.
    pub fn stat_changes(self) -> (changes: (Stat, Stat))
        ensures
            changes == (self.raised(), self.lowered()),
            changes.0.spec_index() == 1 + self.spec_index() / 5,
            changes.1.spec_index() == 1 + self.spec_index() % 5,
    {
        match self {
            Nature::Hardy => (Stat::Attack, Stat::Attack),
            Nature::Lonely => (Stat::Attack, Stat::Defence),
            Nature::Adamant => (Stat::Attack, Stat::SpecialAttack),
            Nature::Naughty => (Stat::Attack, Stat::SpecialDefence),
            Nature::Brave => (Stat::Attack, Stat::Speed),
            Nature::Bold => (Stat::Defence, Stat::Attack),
            Nature::Docile => (Stat::Defence, Stat::Defence),
            Nature::Impish => (Stat::Defence, Stat::SpecialAttack),
            Nature::Lax => (Stat::Defence, Stat::SpecialDefence),
            Nature::Relaxed => (Stat::Defence, Stat::Speed),
            Nature::Modest => (Stat::SpecialAttack, Stat::Attack),
            Nature::Mild => (Stat::SpecialAttack, Stat::Defence),
            Nature::Bashful => (Stat::SpecialAttack, Stat::SpecialAttack),
            Nature::Rash => (Stat::SpecialAttack, Stat::SpecialDefence),
            Nature::Quiet => (Stat::SpecialAttack, Stat::Speed),
            Nature::Calm => (Stat::SpecialDefence, Stat::Attack),
            Nature::Gentle => (Stat::SpecialDefence, Stat::Defence),
            Nature::Careful => (Stat::SpecialDefence, Stat::SpecialAttack),
            Nature::Quirky => (Stat::SpecialDefence, Stat::SpecialDefence),
            Nature::Sassy => (Stat::SpecialDefence, Stat::Speed),
            Nature::Timid => (Stat::Speed, Stat::Attack),
            Nature::Hasty => (Stat::Speed, Stat::Defence),
            Nature::Jolly => (Stat::Speed, Stat::SpecialAttack),
            Nature::Naive => (Stat::Speed, Stat::SpecialDefence),
            Nature::Serious => (Stat::Speed, Stat::Speed),
        }
    }

    /// The factor, in percent, that this nature applies to `stat`: 110 for
    /// the raised statistic, 90 for the lowered one, and 100 otherwise, for
    /// Health, and for every statistic when the two coincide.
    pub open spec fn modifier_percent(self, stat: Stat) -> u32 {
        if stat == Stat::Health || self.raised() == self.lowered() {
            100
        } else if stat == self.raised() {
            110
        } else if stat == self.lowered() {
            90
        } else {
            100
        }
    }

    /// The factor, in percent, that this nature applies to `stat`.
    pub fn get_modifier_percent(self, stat: Stat) -> (percent: u32)
        ensures
            percent == self.modifier_percent(stat),
            percent == 90 || percent == 100 || percent == 110,
            stat.spec_index() == 1 + self.spec_index() / 5 && self.spec_index() / 5 != self.spec_index()
                % 5 ==> percent == 110,
            stat.spec_index() == 1 + self.spec_index() % 5 && self.spec_index() / 5 != self.spec_index()
                % 5 ==> percent == 90,
    {
        if stat == Stat::Health {
            return 100;
        }
        let (inc, dec) = self.stat_changes();
        if inc == dec {
            100
        } else if stat == inc {
            Nature::NATURE_UP_PERCENT
        } else if stat == dec {
            Nature::NATURE_DOWN_PERCENT
        } else {
            100
        }
    }

    /// A nature drawn uniformly at random: a draw below [`Nature::COUNT`]
    /// picks the nature at that position with [`Nature::from_repr`]. Every
    /// nature can come out, so nothing is promised of which one does.
    pub fn sample(rng: &mut ThreadRng) -> Nature {
        let index = random_below(rng, Nature::COUNT);
        Nature::from_repr(index).unwrap()
    }
}

/// Natures form a five-by-five grid in declaration order over Attack,
/// Defence, Special Attack, Special Defence and Speed: the nature at
/// position `i` raises the statistic at place `i / 5` of that list and
/// lowers the one at place `i % 5`, so it moves them by a tenth each unless
/// the two places coincide.
pub proof fn lemma_nature_grid(nature: Nature, stat: Stat)
    ensures
        nature.raised().spec_index() == 1 + nature.spec_index() / 5,
        nature.lowered().spec_index() == 1 + nature.spec_index() % 5,
        nature.spec_index() / 5 != nature.spec_index() % 5 ==> {
            &&& stat.spec_index() == 1 + nature.spec_index() / 5 ==> nature.modifier_percent(stat)
                == 110
            &&& stat.spec_index() == 1 + nature.spec_index() % 5 ==> nature.modifier_percent(stat)
                == 90
            &&& stat.spec_index() != 1 + nature.spec_index() / 5 && stat.spec_index() != 1
                + nature.spec_index() % 5 ==> nature.modifier_percent(stat) == 100
        },
        nature.spec_index() / 5 == nature.spec_index() % 5 ==> nature.modifier_percent(stat) == 100,
{
}

/// A nature changes nothing exactly when it is one of the five whose raised
/// and lowered statistics coincide: Hardy, Docile, Bashful, Quirky and
/// Serious.
pub proof fn lemma_neutral_natures(nature: Nature)
    ensures
        (nature.raised() == nature.lowered()) <==> (nature == Nature::Hardy || nature
            == Nature::Docile || nature == Nature::Bashful || nature == Nature::Quirky || nature
            == Nature::Serious),
        nature.raised() == nature.lowered() ==> forall|s: Stat|
            #[trigger] nature.modifier_percent(s) == 100,
{
}

/// Any other nature raises exactly one statistic by a tenth, lowers exactly
/// one other by a tenth, and leaves the remaining four, Health among them,
/// unchanged.
pub proof fn lemma_nature_changes_two_stats(nature: Nature)
    requires
        nature.raised() != nature.lowered(),
    ensures
        nature.raised() != Stat::Health,
        nature.lowered() != Stat::Health,
        nature.modifier_percent(nature.raised()) == 110,
        nature.modifier_percent(nature.lowered()) == 90,
        forall|s: Stat|
            s != nature.raised() && s != nature.lowered() ==> #[trigger] nature.modifier_percent(s)
                == 100,
{
}

} // verus!
