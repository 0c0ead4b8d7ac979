use crate::moves::{Learnset, MoveList};
use crate::pokemon::attributes::gender::Gender;
use crate::pokemon::attributes::growth_rate::{
    exp_for, lemma_level_of_level_experience, level_for, GrowthRate, MAX_LEVEL,
};
use crate::pokemon::attributes::nature::Nature;
use crate::pokemon::attributes::stats::{Stat, Stats};
use crate::pokemon::attributes::types::PokemonType;
use vstd::prelude::*;

pub mod attributes;

verus! {

/// The data every member of a species shares.
#[derive(Debug)]
pub struct BasePokemon {
    name: String,
    id: String,
    types: PokemonType,
    stats: Stats,
    ability: String,
    ev_yield: Stats,
    catch_rate: u8,
    base_friendship: u8,
    base_experience: u8,
    growth_rate: GrowthRate,
    learnset: Learnset,
}

impl BasePokemon {
    /// The species' display name.
    pub closed spec fn spec_name(self) -> Seq<char> {
        self.name@
    }

    /// The species' identifier.
    pub closed spec fn spec_id(self) -> Seq<char> {
        self.id@
    }

    /// The species' ability.
    pub closed spec fn spec_ability(self) -> Seq<char> {
        self.ability@
    }

    /// The effort values a defeated member of the species yields.
    pub closed spec fn spec_ev_yield(self) -> Stats {
        self.ev_yield
    }

    /// How easily the species is caught.
    pub closed spec fn spec_catch_rate(self) -> u8 {
        self.catch_rate
    }

    /// The friendship a caught member of the species starts with.
    pub closed spec fn spec_base_friendship(self) -> u8 {
        self.base_friendship
    }

    /// The base experience a defeated member of the species yields.
    pub closed spec fn spec_base_experience(self) -> u8 {
        self.base_experience
    }

    /// The species' base statistics.
    pub closed spec fn spec_stats(self) -> Stats {
        self.stats
    }

    /// The species' experience curve.
    pub closed spec fn spec_growth_rate(self) -> GrowthRate {
        self.growth_rate
    }

    /// The moves the species learns.
    pub closed spec fn spec_learnset(self) -> Seq<(u32, Vec<usize>)> {
        self.learnset@
    }

    /// The species' typing.
    pub closed spec fn spec_types(self) -> PokemonType {
        self.types
    }

    /// A species with the given data.
    pub fn new(
        name: String,
        id: String,
        types: PokemonType,
        stats: Stats,
        ability: String,
        ev_yield: Stats,
        catch_rate: u8,
        base_friendship: u8,
        base_experience: u8,
        growth_rate: GrowthRate,
        learnset: Learnset,
    ) -> (base: Self)
        ensures
            base.spec_name() == name@,
            base.spec_id() == id@,
            base.spec_ability() == ability@,
            base.spec_ev_yield() == ev_yield,
            base.spec_catch_rate() == catch_rate,
            base.spec_base_friendship() == base_friendship,
            base.spec_base_experience() == base_experience,
            base.spec_stats() == stats,
            base.spec_growth_rate() == growth_rate,
            base.spec_learnset() == learnset@,
            base.spec_types() == types,
    {
        BasePokemon {
            name,
            id,
            types,
            stats,
            ability,
            ev_yield,
            catch_rate,
            base_friendship,
            base_experience,
            growth_rate,
            learnset,
        }
    }

    /// The species' experience curve.
    pub fn growth_rate(&self) -> (rate: GrowthRate)
        ensures
            rate == self.spec_growth_rate(),
    {
        self.growth_rate
    }

    /// The moves the species learns.
    pub fn learnset(&self) -> (learnset: &Learnset)
        ensures
            learnset@ == self.spec_learnset(),
    {
        &self.learnset
    }

    /// The species' base statistics.
    pub fn stats(&self) -> (stats: Stats)
        ensures
            stats == self.spec_stats(),
    {
        self.stats
    }

    /// The species' typing.
    pub fn types(&self) -> (types: PokemonType)
        ensures
            types == self.spec_types(),
    {
        self.types
    }
}

/// The level-dependent core of a statistic, before the final bonus:
/// `floor((2 * base + iv + floor(ev / 4)) * level / 100) + level`.
pub open spec fn core_stat(base: u32, iv: u32, ev: u32, level: int) -> int {
    ((2 * base + iv + ev / 4) * level) / 100 + level
}

/// The value of `stat`: Health gets the core plus 10; any other statistic
/// gets the core plus 5, scaled by the nature's factor, rounded down and
/// capped at the largest `u32`.
pub open spec fn stat_value(
    base: u32,
    iv: u32,
    ev: u32,
    level: int,
    nature: Nature,
    stat: Stat,
) -> int {
    let core = core_stat(base, iv, ev, level);
    if stat == Stat::Health {
        core + 10
    } else {
        let scaled = ((core + 5) * nature.modifier_percent(stat)) / 100;
        if scaled > u32::MAX { u32::MAX as int } else { scaled }
    }
}

/// Whether computing `stat` stays within `u32` at every step.
pub open spec fn stat_in_range(base: u32, iv: u32, ev: u32, level: int, stat: Stat) -> bool {
    &&& (2 * base + iv + ev / 4) * level <= u32::MAX
    &&& if stat == Stat::Health {
        core_stat(base, iv, ev, level) + 10 <= u32::MAX
    } else {
        core_stat(base, iv, ev, level) + 5 <= u32::MAX
    }
}

/// One Pokémon: its species, experience, effort and individual values,
/// nature, gender and moves.
#[derive(Debug)]
pub struct Pokemon<'p, 'm> {
    base: &'p BasePokemon,
    experience: u32,
    evs: Stats,
    ivs: Stats,
    nature: Nature,
    gender: Gender,
    moves: MoveList<'m>,
}

impl<'p, 'm> Pokemon<'p, 'm> {
    /// The species.
    pub closed spec fn spec_base(self) -> BasePokemon {
        *self.base
    }

    /// The experience earned.
    pub closed spec fn spec_experience(self) -> u32 {
        self.experience
    }

    /// The effort values.
    pub closed spec fn spec_evs(self) -> Stats {
        self.evs
    }

    /// The individual values.
    pub closed spec fn spec_ivs(self) -> Stats {
        self.ivs
    }

    /// The nature.
    pub closed spec fn spec_nature(self) -> Nature {
        self.nature
    }

    /// The gender.
    pub closed spec fn spec_gender(self) -> Gender {
        self.gender
    }

    /// The moves known.
    pub closed spec fn spec_moves(self) -> MoveList<'m> {
        self.moves
    }

    /// The level the experience earns on the species' curve.
    pub open spec fn spec_level(self) -> int {
        level_for(self.spec_base().spec_growth_rate(), self.spec_experience() as int)
    }

    /// The value of `stat`.
    pub open spec fn spec_stat(self, stat: Stat) -> int {
        stat_value(
            self.spec_base().spec_stats().spec_stat(stat),
            self.spec_ivs().spec_stat(stat),
            self.spec_evs().spec_stat(stat),
            self.spec_level(),
            self.spec_nature(),
            stat,
        )
    }

    /// Whether `stat` can be computed within `u32`.
    pub open spec fn spec_stat_in_range(self, stat: Stat) -> bool {
        stat_in_range(
            self.spec_base().spec_stats().spec_stat(stat),
            self.spec_ivs().spec_stat(stat),
            self.spec_evs().spec_stat(stat),
            self.spec_level(),
            stat,
        )
    }

    /// A Pokémon of species `base` with the given data.
    pub fn new(
        base: &'p BasePokemon,
        experience: u32,
        evs: Stats,
        ivs: Stats,
        nature: Nature,
        gender: Gender,
        moves: MoveList<'m>,
    ) -> (pokemon: Self)
        ensures
            pokemon.spec_base() == *base,
            pokemon.spec_experience() == experience,
            pokemon.spec_evs() == evs,
            pokemon.spec_ivs() == ivs,
            pokemon.spec_nature() == nature,
            pokemon.spec_gender() == gender,
            pokemon.spec_moves() == moves,
    {
        Pokemon { base, experience, evs, ivs, nature, gender, moves }
    }

    /// The level the experience earns on the species' curve.
    pub fn level(&self) -> (level: u32)
        ensures
            level == self.spec_level(),
            1 <= level <= 100,
    {
        self.base.growth_rate.level(self.experience)
    }

    /// Whether `stat` can be computed within `u32`.
    pub fn stat_in_range(&self, stat: Stat) -> (fits: bool)
        ensures
            fits == self.spec_stat_in_range(stat),
    {
        let level = self.level() as u64;
        let base = self.base.stats.stat(stat) as u64;
        let iv = self.ivs.stat(stat) as u64;
        let ev = self.evs.stat(stat) as u64;
        let sum: u64 = 2 * base + iv + ev / 4;
        assert(sum * level <= 0xffff_ffff_u64 * 4 * 100) by (nonlinear_arith)
            requires sum <= 0xffff_ffff_u64 * 4, level <= 100;
        let product: u64 = sum * level;
        if product > u32::MAX as u64 {
            return false;
        }
        let core: u64 = product / 100 + level;
        if stat == Stat::Health {
            core + 10 <= u32::MAX as u64
        } else {
            core + 5 <= u32::MAX as u64
        }
    }

    /// The value of `stat` for this Pokémon.
    pub fn stat(&self, stat: Stat) -> (value: u32)
        requires
            self.spec_stat_in_range(stat),
        ensures
            value == self.spec_stat(stat),
    {
        let level = self.level();
        let base = self.base.stats.stat(stat);
        let iv = self.ivs.stat(stat);
        let ev = self.evs.stat(stat);
        assert(2 * base + iv + ev / 4 <= u32::MAX) by (nonlinear_arith)
            requires
                (2 * base + iv + ev / 4) * level <= u32::MAX,
                level >= 1,
                base >= 0,
                iv >= 0,
                ev >= 0;
        let core: u32 = ((2 * base + iv + ev / 4) * level) / 100 + level;
        if stat == Stat::Health {
            core + 10
        } else {
            let percent = self.nature.get_modifier_percent(stat);
            assert((core + 5) * percent <= (u32::MAX + 5) * 110) by (nonlinear_arith)
                requires
                    core <= u32::MAX,
                    percent <= 110;
            let scaled: u64 = ((core as u64 + 5) * percent as u64) / 100;
            if scaled > u32::MAX as u64 {
                u32::MAX
            } else {
                scaled as u32
            }
        }
    }

    /// The value of every statistic for this Pokémon.
    pub fn stats(&self) -> (stats: Stats)
        requires
            forall|s: Stat| #[trigger] self.spec_stat_in_range(s),
        ensures
            forall|s: Stat| #[trigger] stats.spec_stat(s) == self.spec_stat(s),
    {
        let mut values = [0u32; 6];
        let mut k: usize = 0;
        while k < Stat::COUNT
            invariant
                k <= Stat::COUNT,
                forall|s: Stat| #[trigger] self.spec_stat_in_range(s),
                forall|j: int| 0 <= j < k ==> #[trigger] values@[j] == self.spec_stat(Stat::VARIANTS[j]),
            decreases Stat::COUNT - k,
        {
            let stat = Stat::VARIANTS[k];
            values[k] = self.stat(stat);
            k += 1;
        }
        let stats = Stats::new(values);
        assert forall|s: Stat| #[trigger] stats.spec_stat(s) == self.spec_stat(s) by {
            assert(Stat::VARIANTS[s.spec_index()] == s);
        }
        stats
    }
}

/// A Pokémon given exactly the experience its species needs for a level
/// from 1 to 100 is at that level.
pub proof fn lemma_spawned_at_level(pokemon: Pokemon, level: int)
    requires
        1 <= level <= MAX_LEVEL,
        pokemon.spec_experience() == exp_for(pokemon.spec_base().spec_growth_rate(), level),
    ensures
        pokemon.spec_level() == level,
{
    lemma_level_of_level_experience(pokemon.spec_base().spec_growth_rate(), level);
}

} // verus!
