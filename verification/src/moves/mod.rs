use crate::moves::manager::MoveManager;
use crate::pokemon::attributes::types::Type;
use crate::random::{weight_sum, weighted_choice_new, weighted_choice_sample};
use rand::rngs::ThreadRng;
use vstd::prelude::*;

pub mod manager;

verus! {

/// Whether a move deals physical or special damage, and how much, or none.
#[derive(Clone, Copy, Debug, PartialEq, Eq, Hash, Structural)]
pub enum Category {
    Physical { power: u32 },
    Special { power: u32 },
    Status,
}

/// The fixed data of a move.
#[derive(Debug, Clone)]
pub struct BaseMove {
    name: String,
    id: String,
    move_type: Type,
    category: Category,
    accuracy: u32,
    pp: u32,
}

impl BaseMove {
    /// The move's display name.
    pub closed spec fn spec_name(self) -> Seq<char> {
        self.name@
    }

    /// The move's identifier.
    pub closed spec fn spec_id(self) -> Seq<char> {
        self.id@
    }

    /// How many times the move can be used before it must be restored.
    pub closed spec fn spec_pp(self) -> u32 {
        self.pp
    }

    /// The move's type.
    pub closed spec fn spec_move_type(self) -> Type {
        self.move_type
    }

    /// The move's category.
    pub closed spec fn spec_category(self) -> Category {
        self.category
    }

    /// The move's accuracy.
    pub closed spec fn spec_accuracy(self) -> u32 {
        self.accuracy
    }

    /// A move with the given data.
    pub fn new(
        name: String,
        id: String,
        move_type: Type,
        category: Category,
        accuracy: u32,
        pp: u32,
    ) -> (base: Self)
        ensures
            base.spec_name() == name@,
            base.spec_id() == id@,
            base.spec_pp() == pp,
            base.spec_move_type() == move_type,
            base.spec_category() == category,
            base.spec_accuracy() == accuracy,
    {
        BaseMove { name, id, move_type, category, accuracy, pp }
    }

    /// How many times the move can be used before it must be restored.
    pub fn pp(&self) -> (pp: u32)
        ensures
            pp == self.spec_pp(),
    {
        self.pp
    }
}

/// A move as a Pokémon knows it: its data, the uses left, and the factor,
/// in percent, by which its uses have been raised.
#[derive(Debug, Clone, Copy)]
pub struct Move<'a> {
    base: &'a BaseMove,
    current_pp: u32,
    pp_multiplier_percent: u32,
}

/// The uses a move with `pp` uses has once raised by `percent` percent,
/// rounded up and capped at the largest `u32`.
pub open spec fn raised_pp(pp: u32, percent: u32) -> u32 {
    let raised = (pp * percent + 99) / 100;
    if raised > u32::MAX { u32::MAX } else { raised as u32 }
}

impl<'a> Move<'a> {
    /// The move's data.
    pub closed spec fn spec_base(self) -> BaseMove {
        *self.base
    }

    /// The uses left.
    pub closed spec fn spec_current_pp(self) -> u32 {
        self.current_pp
    }

    /// The factor, in percent, by which the move's uses have been raised.
    pub closed spec fn spec_pp_multiplier_percent(self) -> u32 {
        self.pp_multiplier_percent
    }

    /// Whether this is a fresh instance of `base`: unraised and fully charged.
    pub open spec fn is_fresh_from(self, base: BaseMove) -> bool {
        &&& self.spec_base() == base
        &&& self.spec_current_pp() == base.spec_pp()
        &&& self.spec_pp_multiplier_percent() == 100
    }

    /// A fresh, fully charged instance of `base`.
    pub fn default_from_base(base: &'a BaseMove) -> (mov: Self)
        ensures
            mov.is_fresh_from(*base),
    {
        Move { base, current_pp: base.pp, pp_multiplier_percent: 100 }
    }

    /// Restores the uses left to the move's raised maximum.
    pub fn reset_pp(&mut self)
        ensures
            final(self).spec_base() == old(self).spec_base(),
            final(self).spec_pp_multiplier_percent() == old(self).spec_pp_multiplier_percent(),
            final(self).spec_current_pp() == raised_pp(
                old(self).spec_base().spec_pp(),
                old(self).spec_pp_multiplier_percent(),
            ),
    {
        let pp: u64 = self.base.pp as u64;
        let percent: u64 = self.pp_multiplier_percent as u64;
        assert(pp * percent <= 0xffff_fffe_0000_0001) by (nonlinear_arith)
            requires pp <= 0xffff_ffff, percent <= 0xffff_ffff;
        let raised: u64 = (pp * percent + 99) / 100;
        self.current_pp = if raised > u32::MAX as u64 { u32::MAX } else { raised as u32 };
    }

    /// The uses left.
    pub fn current_pp(&self) -> (pp: u32)
        ensures
            pp == self.spec_current_pp(),
    {
        self.current_pp
    }
}

/// Restoring a move that was never raised gives back exactly its base uses.
pub proof fn lemma_reset_unraised(pp: u32)
    ensures
        raised_pp(pp, 100) == pp,
{
    assert(pp * 100 == 100 * pp);
}

/// Up to four moves a Pokémon knows.
pub type MoveList<'a> = [Option<Move<'a>>; 4];

/// `moves` with `mov` placed in slot `index`: an empty list becomes one
/// holding only `mov`, and an index past the fourth slot leaves `moves` as
/// it was.
pub fn place_move<'m>(moves: Option<MoveList<'m>>, mov: Move<'m>, index: usize) -> (placed: Option<
    MoveList<'m>,
>)
    ensures
        index >= 4 ==> placed == moves,
        index < 4 ==> (placed matches Some(list) && list@ == match moves {
            Some(old_list) => old_list@.update(index as int, Some(mov)),
            None => seq![None, None, None, None].update(index as int, Some(mov)),
        }),
{
    if index >= 4 {
        return moves;
    }
    match moves {
        Some(list) => {
            let mut list = list;
            list[index] = Some(mov);
            Some(list)
        },
        None => {
            let mut list: MoveList<'m> = [None, None, None, None];
            list[index] = Some(mov);
            Some(list)
        },
    }
}

/// The moves a species learns: pairs of a level and the positions, in the
/// move manager, of the moves learnt on reaching it. The pairs come in the
/// order in which they are handed over, which need not be the order of the
/// levels.
pub type Learnset = Vec<(u32, Vec<usize>)>;

/// The moves `learnset` teaches up to `level`, in learnset order.
pub open spec fn eligible_moves(learnset: Seq<(u32, Vec<usize>)>, level: u32) -> Seq<usize>
    decreases learnset.len(),
{
    if learnset.len() == 0 {
        Seq::empty()
    } else {
        let earlier = eligible_moves(learnset.drop_last(), level);
        if learnset.last().0 <= level {
            earlier + learnset.last().1@
        } else {
            earlier
        }
    }
}

/// The pool a moveset is drawn from: the last eight, in learnset order, of
/// the moves the learnset teaches up to `level` (all of them if there are
/// fewer).
pub open spec fn move_pool(learnset: Seq<(u32, Vec<usize>)>, level: u32) -> Seq<usize> {
    let eligible = eligible_moves(learnset, level);
    if eligible.len() > 8 {
        eligible.skip(eligible.len() - 8)
    } else {
        eligible
    }
}

/// Whether every move position in `learnset` is below `count`.
pub open spec fn learnset_within(learnset: Seq<(u32, Vec<usize>)>, count: nat) -> bool {
    forall|i: int, j: int|
        0 <= i < learnset.len() && 0 <= j < learnset[i].1@.len() ==> #[trigger] learnset[i].1@[j]
            < count
}

/// Whether every move position in `learnset` is below `count`.
pub fn learnset_positions_below(learnset: &Learnset, count: usize) -> (within: bool)
    ensures
        within == learnset_within(learnset@, count as nat),
{
    let mut i: usize = 0;
    while i < learnset.len()
        invariant
            i <= learnset@.len(),
            forall|a: int, b: int|
                0 <= a < i && 0 <= b < learnset@[a].1@.len() ==> #[trigger] learnset@[a].1@[b]
                    < count,
        decreases learnset@.len() - i,
    {
        let moves = &learnset[i].1;
        let mut j: usize = 0;
        while j < moves.len()
            invariant
                i < learnset@.len(),
                *moves == learnset@[i as int].1,
                j <= moves@.len(),
                forall|a: int, b: int|
                    0 <= a < i && 0 <= b < learnset@[a].1@.len() ==> #[trigger] learnset@[a].1@[b]
                        < count,
                forall|b: int| 0 <= b < j ==> #[trigger] moves@[b] < count,
            decreases moves@.len() - j,
        {
            if moves[j] >= count {
                assert(learnset@[i as int].1@[j as int] >= count);
                return false;
            }
            j += 1;
        }
        i += 1;
    }
    true
}

proof fn lemma_eligible_within(learnset: Seq<(u32, Vec<usize>)>, level: u32, count: nat)
    requires
        learnset_within(learnset, count),
    ensures
        forall|k: int|
            0 <= k < eligible_moves(learnset, level).len() ==> #[trigger] eligible_moves(
                learnset,
                level,
            )[k] < count,
    decreases learnset.len(),
{
    if learnset.len() > 0 {
        let rest = learnset.drop_last();
        assert forall|i: int, j: int|
            0 <= i < rest.len() && 0 <= j < rest[i].1@.len() implies #[trigger] rest[i].1@[j]
            < count by {
            assert(rest[i] == learnset[i]);
        }
        lemma_eligible_within(rest, level, count);
        let last = learnset.last();
        assert forall|j: int| 0 <= j < last.1@.len() implies #[trigger] last.1@[j] < count by {
            assert(learnset[learnset.len() - 1] == last);
        }
        let earlier = eligible_moves(rest, level);
        assert forall|k: int|
            0 <= k < eligible_moves(learnset, level).len() implies #[trigger] eligible_moves(
            learnset,
            level,
        )[k] < count by {
            if k < earlier.len() {
                assert(eligible_moves(learnset, level)[k] == earlier[k]);
            } else {
                assert(eligible_moves(learnset, level)[k] == last.1@[k - earlier.len()]);
            }
        }
    }
}

proof fn lemma_weight_sum_bounds(weights: Seq<u32>, top: u32)
    requires
        forall|i: int| 0 <= i < weights.len() ==> 1 <= #[trigger] weights[i] <= top,
    ensures
        weights.len() <= weight_sum(weights) <= weights.len() * top,
    decreases weights.len(),
{
    if weights.len() > 0 {
        lemma_weight_sum_bounds(weights.drop_last(), top);
        assert(weights.last() == weights[weights.len() - 1]);
        assert((weights.len() - 1) * top + top == weights.len() * top) by (nonlinear_arith);
    }
}

/// What remains of `items` once the positions in `draws` have been taken
/// out one after the other, each position counted among what remained.
pub open spec fn remaining_after<T>(items: Seq<T>, draws: Seq<int>) -> Seq<T>
    decreases draws.len(),
{
    if draws.len() == 0 {
        items
    } else {
        remaining_after(items, draws.drop_last()).remove(draws.last())
    }
}

/// The items that the positions in `draws` take out of `items`, in the
/// order taken, each position counted among what remained.
pub open spec fn drawn_items<T>(items: Seq<T>, draws: Seq<int>) -> Seq<T>
    decreases draws.len(),
{
    if draws.len() == 0 {
        Seq::empty()
    } else {
        drawn_items(items, draws.drop_last()).push(
            remaining_after(items, draws.drop_last())[draws.last()],
        )
    }
}

proof fn lemma_drawn_items_len<T>(items: Seq<T>, draws: Seq<int>)
    ensures
        drawn_items(items, draws).len() == draws.len(),
    decreases draws.len(),
{
    if draws.len() > 0 {
        lemma_drawn_items_len(items, draws.drop_last());
    }
}

/// The weights of a pool of `count` moves: the move at position `p` weighs
/// `p + 1`, so later moves are likelier.
pub open spec fn position_weights(count: nat) -> Seq<u32> {
    Seq::new(count, |p: int| (p + 1) as u32)
}

/// The weights of a pool of `count` moves: the move at position `p` weighs
/// `p + 1`.
pub fn pool_weights(count: usize) -> (weights: Vec<u32>)
    requires
        count <= u32::MAX,
    ensures
        weights@ == position_weights(count as nat),
{
    let mut weights: Vec<u32> = Vec::new();
    let mut w: usize = 0;
    while w < count
        invariant
            w <= count <= u32::MAX,
            weights@ == position_weights(w as nat),
        decreases count - w,
    {
        weights.push((w + 1) as u32);
        w += 1;
    }
    weights
}

/// Draws the moveset a wild Pokémon of some species knows at some level.
pub struct MoveDistribution<'a> {
    move_manager: &'a MoveManager,
    learnset: &'a Learnset,
    level: u32,
}

impl<'a> MoveDistribution<'a> {
    #[verifier::type_invariant]
    spec fn positions_known(self) -> bool {
        learnset_within(self.learnset@, self.move_manager@.len())
    }

    /// The moves the draw chooses from.
    pub closed spec fn spec_manager(self) -> Seq<BaseMove> {
        self.move_manager@
    }

    /// The learnset the draw follows.
    pub closed spec fn spec_learnset(self) -> Seq<(u32, Vec<usize>)> {
        self.learnset@
    }

    /// The level the moveset is drawn for.
    pub closed spec fn spec_level(self) -> u32 {
        self.level
    }

    /// The distribution of movesets for `learnset` at `level`; every move
    /// the learnset names must be held by `move_manager`.
    pub fn new(move_manager: &'a MoveManager, learnset: &'a Learnset, level: u32) -> (dist: Self)
        requires
            learnset_within(learnset@, move_manager@.len()),
        ensures
            dist.spec_manager() == move_manager@,
            dist.spec_learnset() == learnset@,
            dist.spec_level() == level,
    {
        MoveDistribution { move_manager, learnset, level }
    }

    /// The moves the learnset teaches up to the level, in learnset order.
    fn eligible(&self) -> (moves: Vec<usize>)
        ensures
            moves@ == eligible_moves(self.learnset@, self.level),
    {
        let mut moves: Vec<usize> = Vec::new();
        let mut i: usize = 0;
        while i < self.learnset.len()
            invariant
                i <= self.learnset@.len(),
                moves@ == eligible_moves(self.learnset@.take(i as int), self.level),
            decreases self.learnset@.len() - i,
        {
            let entry = &self.learnset[i];
            assert(self.learnset@.take(i + 1).drop_last() == self.learnset@.take(i as int));
            assert(self.learnset@.take(i + 1).last() == *entry);
            if entry.0 <= self.level {
                let ghost before = moves@;
                let mut j: usize = 0;
                while j < entry.1.len()
                    invariant
                        j <= entry.1@.len(),
                        moves@ == before + entry.1@.take(j as int),
                    decreases entry.1@.len() - j,
                {
                    moves.push(entry.1[j]);
                    assert(entry.1@.take(j + 1) == entry.1@.take(j as int).push(entry.1@[j as int]));
                    j += 1;
                }
                assert(entry.1@.take(entry.1@.len() as int) == entry.1@);
            }
            i += 1;
        }
        assert(self.learnset@.take(self.learnset@.len() as int) == self.learnset@);
        moves
    }

    /// The move at position `chosen` of `pool`, taken out of the pool
    /// together with its weight: a fresh instance of it goes into the
    /// moveset, and the pool and weights keep their other entries in order.
    pub fn take_drawn_move(&self, pool: &mut Vec<usize>, weights: &mut Vec<u32>, chosen: usize) -> (mov:
        Move<'a>)
        requires
            chosen < old(pool)@.len(),
            chosen < old(weights)@.len(),
            old(pool)@[chosen as int] < self.spec_manager().len(),
        ensures
            mov.is_fresh_from(self.spec_manager()[old(pool)@[chosen as int] as int]),
            final(pool)@ == old(pool)@.remove(chosen as int),
            final(weights)@ == old(weights)@.remove(chosen as int),
    {
        let id = pool.remove(chosen);
        weights.remove(chosen);
        let base = self.move_manager.get_base(id);
        Move::default_from_base(base)
    }

    /// Draws a moveset from the pool of the last eight moves the learnset
    /// teaches up to the level, in learnset order: all of them, in order and
    /// without touching `rng`, when there are four or fewer; else four
    /// draws, each taking one of the remaining moves out of the pool, with
    /// the move at position `p` of the starting pool weighing `p + 1`.
    pub fn sample(&self, rng: &mut ThreadRng) -> (moves: MoveList<'a>)
        ensures
            ({
                let pool = move_pool(self.spec_learnset(), self.spec_level());
                let manager = self.spec_manager();
                &&& pool.len() <= 4 ==> *final(rng) == *old(rng)
                &&& pool.len() <= 4 ==> forall|k: int|
                    0 <= k < 4 ==> if k < pool.len() {
                        #[trigger] moves[k] matches Some(m) && m.is_fresh_from(manager[pool[k] as int])
                    } else {
                        moves[k] is None
                    }
                &&& pool.len() > 4 ==> exists|draws: Seq<int>|
                    #[trigger] draws.len() == 4 && (forall|k: int|
                        0 <= k < 4 ==> 0 <= #[trigger] draws[k] < pool.len() - k) && (forall|k: int|
                        0 <= k < 4 ==> (#[trigger] moves[k] matches Some(m) && m.is_fresh_from(
                            manager[drawn_items(pool, draws)[k] as int],
                        )))
                &&& pool.len() > 4 ==> exists|picks: Seq<int>|
                    #[trigger] picks.len() == 4 && (forall|k: int|
                        0 <= k < 4 ==> 0 <= #[trigger] picks[k] < pool.len()) && (forall|j: int, k: int|
                        0 <= j < k < 4 ==> picks[j] != picks[k]) && (forall|k: int|
                        0 <= k < 4 ==> (#[trigger] moves[k] matches Some(m) && m.is_fresh_from(
                            manager[pool[picks[k]] as int],
                        )))
            }),
    {
        proof {
            use_type_invariant(self);
            lemma_eligible_within(self.learnset@, self.level, self.move_manager@.len());
        }
        let eligible = self.eligible();
        let pool_size = eligible.len();
        let start_idx = pool_size.saturating_sub(8);
        let ghost full_pool = move_pool(self.learnset@, self.level);
        let mut pool: Vec<usize> = Vec::new();
        let mut i: usize = start_idx;
        while i < pool_size
            invariant
                start_idx <= i <= pool_size,
                pool_size == eligible@.len(),
                pool@ == eligible@.subrange(start_idx as int, i as int),
            decreases pool_size - i,
        {
            pool.push(eligible[i]);
            assert(eligible@.subrange(start_idx as int, i + 1) == eligible@.subrange(
                start_idx as int,
                i as int,
            ).push(eligible@[i as int]));
            i += 1;
        }
        assert(pool@ == full_pool);

        let mut result: MoveList<'a> = [None, None, None, None];

        if pool.len() <= 4 {
            let mut k: usize = 0;
            while k < pool.len()
                invariant
                    k <= pool@.len() <= 4,
                    pool@ == full_pool,
                    forall|p: int| 0 <= p < pool@.len() ==> #[trigger] pool@[p] < self.move_manager@.len(),
                    forall|j: int|
                        0 <= j < 4 ==> if j < k {
                            #[trigger] result[j] matches Some(m) && m.is_fresh_from(
                                self.move_manager@[pool@[j] as int],
                            )
                        } else {
                            result[j] is None
                        },
                decreases pool@.len() - k,
            {
                let base = self.move_manager.get_base(pool[k]);
                result[k] = Some(Move::default_from_base(base));
                k += 1;
            }
            return result;
        }

        let mut weights: Vec<u32> = pool_weights(pool.len());

        let ghost mut positions: Seq<int> = Seq::new(pool@.len(), |p: int| p);
        let ghost mut picks: Seq<int> = Seq::empty();
        let ghost mut draws: Seq<int> = Seq::empty();
        let mut selected_count: usize = 0;
        while selected_count < 4
            invariant
                0 <= selected_count <= 4,
                full_pool.len() > 4,
                full_pool.len() <= 8,
                pool@.len() == full_pool.len() - selected_count,
                weights@.len() == pool@.len(),
                positions.len() == pool@.len(),
                picks.len() == selected_count,
                draws.len() == selected_count,
                pool@ == remaining_after(full_pool, draws),
                forall|k: int| 0 <= k < draws.len() ==> 0 <= #[trigger] draws[k] < full_pool.len() - k,
                forall|p: int| 0 <= p < full_pool.len() ==> #[trigger] full_pool[p] < self.move_manager@.len(),
                forall|p: int|
                    0 <= p < positions.len() ==> 0 <= #[trigger] positions[p] < full_pool.len()
                        && pool@[p] == full_pool[positions[p]] && weights@[p] == positions[p] + 1,
                forall|p: int, q: int| 0 <= p < q < positions.len() ==> positions[p] != positions[q],
                forall|k: int| 0 <= k < picks.len() ==> 0 <= #[trigger] picks[k] < full_pool.len(),
                forall|j: int, k: int| 0 <= j < k < picks.len() ==> picks[j] != picks[k],
                forall|k: int, p: int| 0 <= k < picks.len() && 0 <= p < positions.len() ==> picks[k] != positions[p],
                forall|k: int|
                    0 <= k < selected_count ==> (#[trigger] result[k] matches Some(m) && m.is_fresh_from(
                        self.move_manager@[full_pool[picks[k]] as int],
                    )),
                forall|k: int|
                    0 <= k < selected_count ==> (#[trigger] result[k] matches Some(m) && m.is_fresh_from(
                        self.move_manager@[drawn_items(full_pool, draws)[k] as int],
                    )),
            decreases 4 - selected_count,
        {
            proof {
                assert forall|p: int| 0 <= p < weights@.len() implies 1 <= #[trigger] weights@[p] <= 8 by {
                    assert(weights@[p] == positions[p] + 1);
                }
                lemma_weight_sum_bounds(weights@, 8);
                assert(weights@.len() * 8 <= 64) by (nonlinear_arith)
                    requires weights@.len() <= 8;
            }
            let dist = weighted_choice_new(&weights).unwrap();
            let chosen_idx = weighted_choice_sample(&dist, rng);

            assert(pool@[chosen_idx as int] == full_pool[positions[chosen_idx as int]]);
            let ghost old_draws = draws;
            let ghost old_pool = pool@;
            let mov = self.take_drawn_move(&mut pool, &mut weights, chosen_idx);
            result[selected_count] = Some(mov);

            proof {
                picks = picks.push(positions[chosen_idx as int]);
                positions = positions.remove(chosen_idx as int);
                draws = draws.push(chosen_idx as int);
                assert(draws.drop_last() == old_draws);
                lemma_drawn_items_len(full_pool, old_draws);
                assert(drawn_items(full_pool, draws) == drawn_items(full_pool, old_draws).push(
                    old_pool[chosen_idx as int],
                ));
                assert forall|k: int| 0 <= k <= selected_count implies (#[trigger] result[k] matches Some(m)
                    && m.is_fresh_from(
                    self.move_manager@[drawn_items(full_pool, draws)[k] as int],
                )) by {
                    if k < selected_count {
                        assert(drawn_items(full_pool, draws)[k] == drawn_items(full_pool, old_draws)[k]);
                    } else {
                        assert(drawn_items(full_pool, draws)[k] == old_pool[chosen_idx as int]);
                    }
                }
            }
            selected_count += 1;
        }
        assert(picks.len() == 4);
        assert(draws.len() == 4);
        result
    }
}

} // verus!
