use crate::random::random_between;
use rand::rngs::ThreadRng;
use vstd::prelude::*;
use vstd::std_specs::ops::{
    AddSpec, AddSpecImpl, DivSpec, DivSpecImpl, MulSpec, MulSpecImpl, SubSpec, SubSpecImpl,
};

verus! {

/// One of the six base statistics of a Pokémon.
#[derive(Clone, Copy, Debug, PartialEq, Eq, Hash, Structural)]
pub enum Stat {
    Health,
    Attack,
    Defence,
    SpecialAttack,
    SpecialDefence,
    Speed,
}

impl Stat {
    /// Number of statistics.
    pub const COUNT: usize = 6;

    /// Every statistic, in declaration order.
    pub const VARIANTS: [Stat; 6] = [
        Stat::Health,
        Stat::Attack,
        Stat::Defence,
        Stat::SpecialAttack,
        Stat::SpecialDefence,
        Stat::Speed,
    ];

    /// Position of this statistic in declaration order.
    pub open spec fn spec_index(self) -> int {
        match self {
            Stat::Health => 0,
            Stat::Attack => 1,
            Stat::Defence => 2,
            Stat::SpecialAttack => 3,
            Stat::SpecialDefence => 4,
            Stat::Speed => 5,
        }
    }

    /// Position of this statistic in declaration order.
    pub fn index(self) -> (i: usize)
        ensures
            i == self.spec_index(),
            i < Stat::COUNT,
    {
        match self {
            Stat::Health => 0,
            Stat::Attack => 1,
            Stat::Defence => 2,
            Stat::SpecialAttack => 3,
            Stat::SpecialDefence => 4,
            Stat::Speed => 5,
        }
    }
}

/// The value that `entries` give `stat`: the last entry naming it wins, and
/// `fallback` stands where no entry names it.
pub open spec fn assigned_value<T>(entries: Seq<(Stat, T)>, stat: Stat, fallback: T) -> T
    decreases entries.len(),
{
    if entries.len() == 0 {
        fallback
    } else if entries.last().0 == stat {
        entries.last().1
    } else {
        assigned_value(entries.drop_last(), stat, fallback)
    }
}

/// One value per statistic.
#[derive(Clone, Copy, Debug, PartialEq, Eq)]
pub struct Stats<T = u32> where T: Clone + Copy {
    base_stats: [T; 6],
}

impl<T: Clone + Copy> View for Stats<T> {
    type V = Seq<T>;

    /// The six values, in the order of [`Stat::VARIANTS`].
    closed spec fn view(&self) -> Seq<T> {
        self.base_stats@
    }
}

impl<T: Clone + Copy> Stats<T> {
    /// The value held for `stat`.
    pub open spec fn spec_stat(self, stat: Stat) -> T {
        self@[stat.spec_index()]
    }

    /// The stats holding `values`, in the order of [`Stat::VARIANTS`].
    pub closed spec fn spec_new(values: [T; 6]) -> Self {
        Stats { base_stats: values }
    }

    pub fn new(stats: [T; 6]) -> (result: Self)
        ensures
            result == Stats::spec_new(stats),
            result@ == stats@,
    {
        Self { base_stats: stats }
    }

    pub fn stat(&self, stat: Stat) -> (value: T)
        ensures
            value == self.spec_stat(stat),
    {
        self.base_stats[stat.index()]
    }

    pub fn set_stat(&mut self, stat: Stat, value: T)
        ensures
            final(self)@ == old(self)@.update(stat.spec_index(), value),
    {
        self.base_stats[stat.index()] = value;
    }

    /// Applies `func` to every value.
    pub fn map<F, O>(&self, func: F) -> (result: Stats<O>)
        where
            O: Clone + Copy,
            F: Fn(T) -> O,
        requires
            forall|i: int| 0 <= i < Stat::COUNT ==> call_requires(func, (#[trigger] self@[i],)),
        ensures
            forall|i: int|
                0 <= i < Stat::COUNT ==> call_ensures(func, (self@[i],), #[trigger] result@[i]),
    {
        assert(call_requires(func, (self@[0],)));
        let first = func(self.base_stats[0]);
        let mut out = [first; 6];
        let mut i: usize = 1;
        while i < Stat::COUNT
            invariant
                1 <= i <= Stat::COUNT,
                forall|j: int| 0 <= j < Stat::COUNT ==> call_requires(func, (#[trigger] self@[j],)),
                forall|j: int| 0 <= j < i ==> call_ensures(func, (self@[j],), #[trigger] out@[j]),
            decreases Stat::COUNT - i,
        {
            assert(call_requires(func, (self@[i as int],)));
            out[i] = func(self.base_stats[i]);
            i += 1;
        }
        Stats { base_stats: out }
    }
}

/// Six values, each from its own call of `T::default()`.
fn default_values<T: Clone + Copy + Default>() -> (values: [T; 6])
    ensures
        forall|i: int| 0 <= i < Stat::COUNT ==> call_ensures(T::default, (), #[trigger] values@[i]),
{
    [T::default(), T::default(), T::default(), T::default(), T::default(), T::default()]
}

impl<T: Clone + Copy + Default> Default for Stats<T> {
    /// Every statistic holds what its own call of `T::default()` returned.
    fn default() -> (result: Self)
        ensures
            forall|s: Stat| call_ensures(T::default, (), #[trigger] result.spec_stat(s)),
    {
        Stats { base_stats: default_values() }
    }
}

impl<T: Clone + Copy + core::ops::Add<Output = T>> core::ops::Add for Stats<T> {
    type Output = Self;

    /// Adds statistic by statistic.
    fn add(self, rhs: Self) -> (result: Self)
        ensures
            forall|s: Stat|
                T::obeys_add_spec() ==> #[trigger] result.spec_stat(s) == self.spec_stat(s).add_spec(
                    rhs.spec_stat(s),
                ),
    {
        let a = self.base_stats;
        let b = rhs.base_stats;
        proof {
            assert(self@[0].add_req(rhs@[0]));
            assert(self@[1].add_req(rhs@[1]));
            assert(self@[2].add_req(rhs@[2]));
            assert(self@[3].add_req(rhs@[3]));
            assert(self@[4].add_req(rhs@[4]));
            assert(self@[5].add_req(rhs@[5]));
        }
        Stats { base_stats: [
            a[0].add(b[0]),
            a[1].add(b[1]),
            a[2].add(b[2]),
            a[3].add(b[3]),
            a[4].add(b[4]),
            a[5].add(b[5]),
        ] }
    }
}

impl<T: Clone + Copy + core::ops::Add<Output = T>> AddSpecImpl for Stats<T> {
    open spec fn obeys_add_spec() -> bool {
        T::obeys_add_spec()
    }

    open spec fn add_req(self, rhs: Self) -> bool {
        forall|j: int| 0 <= j < Stat::COUNT ==> (#[trigger] self@[j]).add_req(rhs@[j])
    }

    closed spec fn add_spec(self, rhs: Self) -> Self {
        Stats { base_stats: [
            self.base_stats[0].add_spec(rhs.base_stats[0]),
            self.base_stats[1].add_spec(rhs.base_stats[1]),
            self.base_stats[2].add_spec(rhs.base_stats[2]),
            self.base_stats[3].add_spec(rhs.base_stats[3]),
            self.base_stats[4].add_spec(rhs.base_stats[4]),
            self.base_stats[5].add_spec(rhs.base_stats[5]),
        ] }
    }
}

impl<T: Clone + Copy + core::ops::Add<Output = T>> core::ops::Add<T> for Stats<T> {
    type Output = Self;

    /// Adds every statistic by the same `scalar`.
    fn add(self, scalar: T) -> (result: Self)
        ensures
            forall|s: Stat|
                T::obeys_add_spec() ==> #[trigger] result.spec_stat(s) == self.spec_stat(s).add_spec(
                    scalar,
                ),
    {
        let a = self.base_stats;
        proof {
            assert(self@[0].add_req(scalar));
            assert(self@[1].add_req(scalar));
            assert(self@[2].add_req(scalar));
            assert(self@[3].add_req(scalar));
            assert(self@[4].add_req(scalar));
            assert(self@[5].add_req(scalar));
        }
        Stats { base_stats: [
            a[0].add(scalar),
            a[1].add(scalar),
            a[2].add(scalar),
            a[3].add(scalar),
            a[4].add(scalar),
            a[5].add(scalar),
        ] }
    }
}

impl<T: Clone + Copy + core::ops::Add<Output = T>> AddSpecImpl<T> for Stats<T> {
    open spec fn obeys_add_spec() -> bool {
        T::obeys_add_spec()
    }

    open spec fn add_req(self, rhs: T) -> bool {
        forall|j: int| 0 <= j < Stat::COUNT ==> (#[trigger] self@[j]).add_req(rhs)
    }

    closed spec fn add_spec(self, rhs: T) -> Self {
        Stats { base_stats: [
            self.base_stats[0].add_spec(rhs),
            self.base_stats[1].add_spec(rhs),
            self.base_stats[2].add_spec(rhs),
            self.base_stats[3].add_spec(rhs),
            self.base_stats[4].add_spec(rhs),
            self.base_stats[5].add_spec(rhs),
        ] }
    }
}

impl<T: Clone + Copy + core::ops::Sub<Output = T>> core::ops::Sub for Stats<T> {
    type Output = Self;

    /// Subtracts statistic by statistic.
    fn sub(self, rhs: Self) -> (result: Self)
        ensures
            forall|s: Stat|
                T::obeys_sub_spec() ==> #[trigger] result.spec_stat(s) == self.spec_stat(s).sub_spec(
                    rhs.spec_stat(s),
                ),
    {
        let a = self.base_stats;
        let b = rhs.base_stats;
        proof {
            assert(self@[0].sub_req(rhs@[0]));
            assert(self@[1].sub_req(rhs@[1]));
            assert(self@[2].sub_req(rhs@[2]));
            assert(self@[3].sub_req(rhs@[3]));
            assert(self@[4].sub_req(rhs@[4]));
            assert(self@[5].sub_req(rhs@[5]));
        }
        Stats { base_stats: [
            a[0].sub(b[0]),
            a[1].sub(b[1]),
            a[2].sub(b[2]),
            a[3].sub(b[3]),
            a[4].sub(b[4]),
            a[5].sub(b[5]),
        ] }
    }
}

impl<T: Clone + Copy + core::ops::Sub<Output = T>> SubSpecImpl for Stats<T> {
    open spec fn obeys_sub_spec() -> bool {
        T::obeys_sub_spec()
    }

    open spec fn sub_req(self, rhs: Self) -> bool {
        forall|j: int| 0 <= j < Stat::COUNT ==> (#[trigger] self@[j]).sub_req(rhs@[j])
    }

    closed spec fn sub_spec(self, rhs: Self) -> Self {
        Stats { base_stats: [
            self.base_stats[0].sub_spec(rhs.base_stats[0]),
            self.base_stats[1].sub_spec(rhs.base_stats[1]),
            self.base_stats[2].sub_spec(rhs.base_stats[2]),
            self.base_stats[3].sub_spec(rhs.base_stats[3]),
            self.base_stats[4].sub_spec(rhs.base_stats[4]),
            self.base_stats[5].sub_spec(rhs.base_stats[5]),
        ] }
    }
}

impl<T: Clone + Copy + core::ops::Sub<Output = T>> core::ops::Sub<T> for Stats<T> {
    type Output = Self;

    /// Subtracts every statistic by the same `scalar`.
    fn sub(self, scalar: T) -> (result: Self)
        ensures
            forall|s: Stat|
                T::obeys_sub_spec() ==> #[trigger] result.spec_stat(s) == self.spec_stat(s).sub_spec(
                    scalar,
                ),
    {
        let a = self.base_stats;
        proof {
            assert(self@[0].sub_req(scalar));
            assert(self@[1].sub_req(scalar));
            assert(self@[2].sub_req(scalar));
            assert(self@[3].sub_req(scalar));
            assert(self@[4].sub_req(scalar));
            assert(self@[5].sub_req(scalar));
        }
        Stats { base_stats: [
            a[0].sub(scalar),
            a[1].sub(scalar),
            a[2].sub(scalar),
            a[3].sub(scalar),
            a[4].sub(scalar),
            a[5].sub(scalar),
        ] }
    }
}

impl<T: Clone + Copy + core::ops::Sub<Output = T>> SubSpecImpl<T> for Stats<T> {
    open spec fn obeys_sub_spec() -> bool {
        T::obeys_sub_spec()
    }

    open spec fn sub_req(self, rhs: T) -> bool {
        forall|j: int| 0 <= j < Stat::COUNT ==> (#[trigger] self@[j]).sub_req(rhs)
    }

    closed spec fn sub_spec(self, rhs: T) -> Self {
        Stats { base_stats: [
            self.base_stats[0].sub_spec(rhs),
            self.base_stats[1].sub_spec(rhs),
            self.base_stats[2].sub_spec(rhs),
            self.base_stats[3].sub_spec(rhs),
            self.base_stats[4].sub_spec(rhs),
            self.base_stats[5].sub_spec(rhs),
        ] }
    }
}

impl<T: Clone + Copy + core::ops::Mul<Output = T>> core::ops::Mul for Stats<T> {
    type Output = Self;

    /// Multiplies statistic by statistic.
    fn mul(self, rhs: Self) -> (result: Self)
        ensures
            forall|s: Stat|
                T::obeys_mul_spec() ==> #[trigger] result.spec_stat(s) == self.spec_stat(s).mul_spec(
                    rhs.spec_stat(s),
                ),
    {
        let a = self.base_stats;
        let b = rhs.base_stats;
        proof {
            assert(self@[0].mul_req(rhs@[0]));
            assert(self@[1].mul_req(rhs@[1]));
            assert(self@[2].mul_req(rhs@[2]));
            assert(self@[3].mul_req(rhs@[3]));
            assert(self@[4].mul_req(rhs@[4]));
            assert(self@[5].mul_req(rhs@[5]));
        }
        Stats { base_stats: [
            a[0].mul(b[0]),
            a[1].mul(b[1]),
            a[2].mul(b[2]),
            a[3].mul(b[3]),
            a[4].mul(b[4]),
            a[5].mul(b[5]),
        ] }
    }
}

impl<T: Clone + Copy + core::ops::Mul<Output = T>> MulSpecImpl for Stats<T> {
    open spec fn obeys_mul_spec() -> bool {
        T::obeys_mul_spec()
    }

    open spec fn mul_req(self, rhs: Self) -> bool {
        forall|j: int| 0 <= j < Stat::COUNT ==> (#[trigger] self@[j]).mul_req(rhs@[j])
    }

    closed spec fn mul_spec(self, rhs: Self) -> Self {
        Stats { base_stats: [
            self.base_stats[0].mul_spec(rhs.base_stats[0]),
            self.base_stats[1].mul_spec(rhs.base_stats[1]),
            self.base_stats[2].mul_spec(rhs.base_stats[2]),
            self.base_stats[3].mul_spec(rhs.base_stats[3]),
            self.base_stats[4].mul_spec(rhs.base_stats[4]),
            self.base_stats[5].mul_spec(rhs.base_stats[5]),
        ] }
    }
}

impl<T: Clone + Copy + core::ops::Mul<Output = T>> core::ops::Mul<T> for Stats<T> {
    type Output = Self;

    /// Multiplies every statistic by the same `scalar`.
    fn mul(self, scalar: T) -> (result: Self)
        ensures
            forall|s: Stat|
                T::obeys_mul_spec() ==> #[trigger] result.spec_stat(s) == self.spec_stat(s).mul_spec(
                    scalar,
                ),
    {
        let a = self.base_stats;
        proof {
            assert(self@[0].mul_req(scalar));
            assert(self@[1].mul_req(scalar));
            assert(self@[2].mul_req(scalar));
            assert(self@[3].mul_req(scalar));
            assert(self@[4].mul_req(scalar));
            assert(self@[5].mul_req(scalar));
        }
        Stats { base_stats: [
            a[0].mul(scalar),
            a[1].mul(scalar),
            a[2].mul(scalar),
            a[3].mul(scalar),
            a[4].mul(scalar),
            a[5].mul(scalar),
        ] }
    }
}

impl<T: Clone + Copy + core::ops::Mul<Output = T>> MulSpecImpl<T> for Stats<T> {
    open spec fn obeys_mul_spec() -> bool {
        T::obeys_mul_spec()
    }

    open spec fn mul_req(self, rhs: T) -> bool {
        forall|j: int| 0 <= j < Stat::COUNT ==> (#[trigger] self@[j]).mul_req(rhs)
    }

    closed spec fn mul_spec(self, rhs: T) -> Self {
        Stats { base_stats: [
            self.base_stats[0].mul_spec(rhs),
            self.base_stats[1].mul_spec(rhs),
            self.base_stats[2].mul_spec(rhs),
            self.base_stats[3].mul_spec(rhs),
            self.base_stats[4].mul_spec(rhs),
            self.base_stats[5].mul_spec(rhs),
        ] }
    }
}

impl<T: Clone + Copy + core::ops::Div<Output = T>> core::ops::Div for Stats<T> {
    type Output = Self;

    /// Divides statistic by statistic.
    fn div(self, rhs: Self) -> (result: Self)
        ensures
            forall|s: Stat|
                T::obeys_div_spec() ==> #[trigger] result.spec_stat(s) == self.spec_stat(s).div_spec(
                    rhs.spec_stat(s),
                ),
    {
        let a = self.base_stats;
        let b = rhs.base_stats;
        proof {
            assert(self@[0].div_req(rhs@[0]));
            assert(self@[1].div_req(rhs@[1]));
            assert(self@[2].div_req(rhs@[2]));
            assert(self@[3].div_req(rhs@[3]));
            assert(self@[4].div_req(rhs@[4]));
            assert(self@[5].div_req(rhs@[5]));
        }
        Stats { base_stats: [
            a[0].div(b[0]),
            a[1].div(b[1]),
            a[2].div(b[2]),
            a[3].div(b[3]),
            a[4].div(b[4]),
            a[5].div(b[5]),
        ] }
    }
}

impl<T: Clone + Copy + core::ops::Div<Output = T>> DivSpecImpl for Stats<T> {
    open spec fn obeys_div_spec() -> bool {
        T::obeys_div_spec()
    }

    open spec fn div_req(self, rhs: Self) -> bool {
        forall|j: int| 0 <= j < Stat::COUNT ==> (#[trigger] self@[j]).div_req(rhs@[j])
    }

    closed spec fn div_spec(self, rhs: Self) -> Self {
        Stats { base_stats: [
            self.base_stats[0].div_spec(rhs.base_stats[0]),
            self.base_stats[1].div_spec(rhs.base_stats[1]),
            self.base_stats[2].div_spec(rhs.base_stats[2]),
            self.base_stats[3].div_spec(rhs.base_stats[3]),
            self.base_stats[4].div_spec(rhs.base_stats[4]),
            self.base_stats[5].div_spec(rhs.base_stats[5]),
        ] }
    }
}

impl<T: Clone + Copy + core::ops::Div<Output = T>> core::ops::Div<T> for Stats<T> {
    type Output = Self;

    /// Divides every statistic by the same `scalar`.
    fn div(self, scalar: T) -> (result: Self)
        ensures
            forall|s: Stat|
                T::obeys_div_spec() ==> #[trigger] result.spec_stat(s) == self.spec_stat(s).div_spec(
                    scalar,
                ),
    {
        let a = self.base_stats;
        proof {
            assert(self@[0].div_req(scalar));
            assert(self@[1].div_req(scalar));
            assert(self@[2].div_req(scalar));
            assert(self@[3].div_req(scalar));
            assert(self@[4].div_req(scalar));
            assert(self@[5].div_req(scalar));
        }
        Stats { base_stats: [
            a[0].div(scalar),
            a[1].div(scalar),
            a[2].div(scalar),
            a[3].div(scalar),
            a[4].div(scalar),
            a[5].div(scalar),
        ] }
    }
}

impl<T: Clone + Copy + core::ops::Div<Output = T>> DivSpecImpl<T> for Stats<T> {
    open spec fn obeys_div_spec() -> bool {
        T::obeys_div_spec()
    }

    open spec fn div_req(self, rhs: T) -> bool {
        forall|j: int| 0 <= j < Stat::COUNT ==> (#[trigger] self@[j]).div_req(rhs)
    }

    closed spec fn div_spec(self, rhs: T) -> Self {
        Stats { base_stats: [
            self.base_stats[0].div_spec(rhs),
            self.base_stats[1].div_spec(rhs),
            self.base_stats[2].div_spec(rhs),
            self.base_stats[3].div_spec(rhs),
            self.base_stats[4].div_spec(rhs),
            self.base_stats[5].div_spec(rhs),
        ] }
    }
}

/// Two stats that hold the same values are the same stats.
pub proof fn lemma_stats_ext<T: Clone + Copy>(a: Stats<T>, b: Stats<T>)
    requires
        a@ == b@,
    ensures
        a == b,
{
    assert(a.base_stats =~= b.base_stats);
}

/// Stats built from an array read each statistic from its own slot, and two
/// arrays give the same stats exactly when the arrays are equal.
pub proof fn lemma_new_injective<T: Clone + Copy>(a: [T; 6], b: [T; 6])
    ensures
        Stats::spec_new(a)@ == a@,
        forall|s: Stat| #[trigger] Stats::spec_new(a).spec_stat(s) == a@[s.spec_index()],
        Stats::spec_new(a) == Stats::spec_new(b) <==> a == b,
{
}

/// Where every call of `T::default()` gives `d`, default stats are the stats
/// built from six copies of `d`.
pub proof fn lemma_default_is_new_of_defaults<T: Clone + Copy + Default>(d: T, stats: Stats<T>)
    requires
        forall|v: T| call_ensures(T::default, (), v) ==> v == d,
        forall|s: Stat| call_ensures(T::default, (), #[trigger] stats.spec_stat(s)),
    ensures
        stats == Stats::spec_new([d, d, d, d, d, d]),
{
    assert(call_ensures(T::default, (), stats.spec_stat(Stat::Health)));
    assert(call_ensures(T::default, (), stats.spec_stat(Stat::Attack)));
    assert(call_ensures(T::default, (), stats.spec_stat(Stat::Defence)));
    assert(call_ensures(T::default, (), stats.spec_stat(Stat::SpecialAttack)));
    assert(call_ensures(T::default, (), stats.spec_stat(Stat::SpecialDefence)));
    assert(call_ensures(T::default, (), stats.spec_stat(Stat::Speed)));
    assert(stats.base_stats =~= [d, d, d, d, d, d]);
}

/// Mapping with a function that returns its argument gives the stats back.
pub proof fn lemma_map_identity<T: Clone + Copy, F: Fn(T) -> T>(s: Stats<T>, f: F, mapped: Stats<T>)
    requires
        forall|x: T, y: T| call_ensures(f, (x,), y) ==> y == x,
        forall|i: int| 0 <= i < Stat::COUNT ==> call_ensures(f, (s@[i],), #[trigger] mapped@[i]),
    ensures
        mapped == s,
{
    assert(mapped@ =~= s@);
    lemma_stats_ext(mapped, s);
}

/// Mapping with `f` and then with `g` gives what mapping once with `h` gives,
/// where `h` returns on every argument what `g` returns on what `f` returns.
pub proof fn lemma_map_composition<
    T: Clone + Copy,
    U: Clone + Copy,
    V: Clone + Copy,
    F: Fn(T) -> U,
    G: Fn(U) -> V,
    H: Fn(T) -> V,
>(s: Stats<T>, f: F, g: G, h: H, middle: Stats<U>, twice: Stats<V>, once: Stats<V>)
    requires
        forall|x: T, y: U, z: V, w: V|
            #![trigger call_ensures(f, (x,), y), call_ensures(g, (y,), z), call_ensures(h, (x,), w)]
            call_ensures(f, (x,), y) && call_ensures(g, (y,), z) && call_ensures(h, (x,), w) ==> z == w,
        forall|i: int| 0 <= i < Stat::COUNT ==> call_ensures(f, (s@[i],), #[trigger] middle@[i]),
        forall|i: int| 0 <= i < Stat::COUNT ==> call_ensures(g, (middle@[i],), #[trigger] twice@[i]),
        forall|i: int| 0 <= i < Stat::COUNT ==> call_ensures(h, (s@[i],), #[trigger] once@[i]),
    ensures
        twice == once,
{
    assert forall|i: int| 0 <= i < Stat::COUNT implies twice@[i] == once@[i] by {
        assert(call_ensures(f, (s@[i],), middle@[i]));
        assert(call_ensures(g, (middle@[i],), twice@[i]));
        assert(call_ensures(h, (s@[i],), once@[i]));
    }
    assert(twice@ =~= once@);
    lemma_stats_ext(twice, once);
}

/// Mapping with a function that always returns `c` gives the stats built
/// from six copies of `c`.
pub proof fn lemma_map_constant<T: Clone + Copy, O: Clone + Copy, F: Fn(T) -> O>(
    s: Stats<T>,
    f: F,
    c: O,
    mapped: Stats<O>,
)
    requires
        forall|x: T, y: O| call_ensures(f, (x,), y) ==> y == c,
        forall|i: int| 0 <= i < Stat::COUNT ==> call_ensures(f, (s@[i],), #[trigger] mapped@[i]),
    ensures
        mapped == Stats::spec_new([c, c, c, c, c, c]),
{
    assert forall|i: int| 0 <= i < Stat::COUNT implies mapped@[i] == c by {
        assert(call_ensures(f, (s@[i],), mapped@[i]));
    }
    assert(mapped@ =~= [c, c, c, c, c, c]@);
    assert(mapped.base_stats =~= [c, c, c, c, c, c]);
}

/// Setting a statistic and reading it back gives the value set, and every
/// other statistic keeps its value.
pub proof fn lemma_set_then_read<T: Clone + Copy>(
    before: Stats<T>,
    after: Stats<T>,
    stat: Stat,
    value: T,
    other: Stat,
)
    requires
        after@ == before@.update(stat.spec_index(), value),
    ensures
        after.spec_stat(stat) == value,
        other != stat ==> after.spec_stat(other) == before.spec_stat(other),
{
}

/// The first statistic from position `from` on, in the order of
/// [`Stat::VARIANTS`], that no entry names.
pub open spec fn first_missing_stat_from(entries: Seq<(Stat, u32)>, from: int) -> Option<Stat>
    decreases Stat::COUNT - from,
{
    if from < 0 || from >= Stat::COUNT {
        None
    } else if !names_stat(entries, Stat::VARIANTS[from]) {
        Some(Stat::VARIANTS[from])
    } else {
        first_missing_stat_from(entries, from + 1)
    }
}

/// The first statistic, in the order of [`Stat::VARIANTS`], that no entry
/// names.
pub open spec fn first_missing_stat(entries: Seq<(Stat, u32)>) -> Option<Stat> {
    first_missing_stat_from(entries, 0)
}

/// Whether some entry gives a value to `stat`.
pub open spec fn names_stat(entries: Seq<(Stat, u32)>, stat: Stat) -> bool {
    exists|i: int| 0 <= i < entries.len() && (#[trigger] entries[i]).0 == stat
}

impl<T: Clone + Copy + Default> Stats<T> {
    /// Builds stats from `(stat, value)` pairs; a later pair for the same
    /// statistic replaces an earlier one, and a statistic no pair names holds
    /// what its own call of `T::default()` returned.
    pub fn from_iter(stats: Vec<(Stat, T)>) -> (result: Self)
        ensures
            exists|fallbacks: Seq<T>|
                #[trigger] fallbacks.len() == Stat::COUNT && (forall|i: int|
                    0 <= i < Stat::COUNT ==> call_ensures(T::default, (), #[trigger] fallbacks[i]))
                    && forall|s: Stat|
                    #[trigger] result.spec_stat(s) == assigned_value(
                        stats@,
                        s,
                        fallbacks[s.spec_index()],
                    ),
    {
        let mut result = default_values();
        let ghost fallbacks = result@;
        let mut i: usize = 0;
        while i < stats.len()
            invariant
                i <= stats.len(),
                fallbacks.len() == Stat::COUNT,
                forall|s: Stat|
                    #[trigger] result@[s.spec_index()] == assigned_value(
                        stats@.take(i as int),
                        s,
                        fallbacks[s.spec_index()],
                    ),
            decreases stats.len() - i,
        {
            let (stat, value) = stats[i];
            result[stat.index()] = value;
            assert(stats@.take(i + 1).drop_last() == stats@.take(i as int));
            i += 1;
        }
        assert(stats@.take(stats.len() as int) == stats@);
        Self { base_stats: result }
    }
}

fn entries_name_stat(entries: &Vec<(Stat, u32)>, stat: Stat) -> (found: bool)
    ensures
        found == names_stat(entries@, stat),
{
    let mut i: usize = 0;
    while i < entries.len()
        invariant
            i <= entries.len(),
            forall|j: int| 0 <= j < i ==> (#[trigger] entries@[j]).0 != stat,
        decreases entries.len() - i,
    {
        if entries[i].0 == stat {
            return true;
        }
        i += 1;
    }
    false
}

impl Stats<u32> {
    /// Builds stats from `(stat, value)` pairs that must name every
    /// statistic (a later pair for the same statistic replaces an earlier
    /// one); otherwise reports the first statistic, in the order of
    /// [`Stat::VARIANTS`], that no pair names.
    pub fn from_required_entries(entries: Vec<(Stat, u32)>) -> (result: Result<Stats<u32>, Stat>)
        ensures
            match result {
                Ok(stats) => first_missing_stat(entries@) is None && forall|s: Stat|
                    #[trigger] stats.spec_stat(s) == assigned_value(entries@, s, 0u32),
                Err(missing) => first_missing_stat(entries@) == Some(missing),
            },
    {
        let mut k: usize = 0;
        while k < Stat::COUNT
            invariant
                k <= Stat::COUNT,
                first_missing_stat(entries@) == first_missing_stat_from(entries@, k as int),
            decreases Stat::COUNT - k,
        {
            let stat = Stat::VARIANTS[k];
            if !entries_name_stat(&entries, stat) {
                return Err(stat);
            }
            k += 1;
        }
        let stats = Stats::<u32>::from_iter(entries);
        Ok(stats)
    }
}

/// One end of a range of stat values, in the shape of `std::ops::Bound`.
#[derive(Clone, Copy, Debug, PartialEq, Eq, Structural)]
pub enum StatBound {
    Included(u32),
    Excluded(u32),
    Unbounded,
}

/// The smallest value a range starting at `start` holds.
pub open spec fn lowest_from(start: StatBound) -> int {
    match start {
        StatBound::Included(s) => s as int,
        StatBound::Excluded(s) => s + 1,
        StatBound::Unbounded => 0,
    }
}

/// The largest value a range ending at `end` holds.
pub open spec fn highest_to(end: StatBound) -> int {
    match end {
        StatBound::Included(e) => e as int,
        StatBound::Excluded(e) => e - 1,
        StatBound::Unbounded => u32::MAX as int,
    }
}

/// Draws every statistic independently and uniformly from one inclusive
/// range of values.
pub struct StatsDistribution {
    low: u32,
    high: u32,
}

impl StatsDistribution {
    #[verifier::type_invariant]
    spec fn nonempty(self) -> bool {
        self.low <= self.high
    }

    /// The smallest value drawn.
    pub closed spec fn low(self) -> u32 {
        self.low
    }

    /// The largest value drawn.
    pub closed spec fn high(self) -> u32 {
        self.high
    }

    /// The distribution over the values between `start` and `end`; the
    /// range must hold at least one value.
    pub fn new(start: StatBound, end: StatBound) -> (dist: Self)
        requires
            0 <= lowest_from(start) <= highest_to(end) <= u32::MAX,
        ensures
            dist.low() == lowest_from(start),
            dist.high() == highest_to(end),
    {
        let low: u32 = match start {
            StatBound::Included(s) => s,
            StatBound::Excluded(s) => s + 1,
            StatBound::Unbounded => 0,
        };
        let high: u32 = match end {
            StatBound::Included(e) => e,
            StatBound::Excluded(e) => e - 1,
            StatBound::Unbounded => u32::MAX,
        };
        StatsDistribution { low, high }
    }

    /// Draws a value for every statistic.
    pub fn sample(&self, rng: &mut ThreadRng) -> (stats: Stats<u32>)
        ensures
            forall|s: Stat| self.low() <= #[trigger] stats.spec_stat(s) <= self.high(),
    {
        proof {
            use_type_invariant(self);
        }
        let first = random_between(rng, self.low, self.high);
        let mut values = [first; 6];
        let mut i: usize = 1;
        while i < Stat::COUNT
            invariant
                1 <= i <= Stat::COUNT,
                self.low <= self.high,
                forall|j: int| 0 <= j < Stat::COUNT ==> self.low <= #[trigger] values@[j] <= self.high,
            decreases Stat::COUNT - i,
        {
            values[i] = random_between(rng, self.low, self.high);
            i += 1;
        }
        Stats { base_stats: values }
    }
}

} // verus!
