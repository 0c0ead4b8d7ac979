use vstd::prelude::*;

verus! {

/// The experience curve a species follows on its way from level 1 to 100.
#[derive(Clone, Copy, Debug, PartialEq, Eq, Hash, Structural)]
pub enum GrowthRate {
    Fluctuating,
    Slow,
    MediumSlow,
    MediumFast,
    Fast,
    Erratic,
}

/// The highest level a Pokémon can reach.
pub const MAX_LEVEL: u32 = 100;

/// Total experience needed to reach `level` on the curve `rate`
/// (levels 0 and 1 need none).
pub open spec fn exp_for(rate: GrowthRate, level: int) -> int {
    if level < 2 {
        0
    } else {
        let l3 = level * level * level;
        let l2 = level * level;
        match rate {
            GrowthRate::Fast => (4 * l3) / 5,
            GrowthRate::MediumFast => l3,
            GrowthRate::MediumSlow => {
                let positive = (6 * l3) / 5 + 100 * level;
                let negative = 15 * l2 + 140;
                if positive >= negative { positive - negative } else { 0 }
            },
            GrowthRate::Slow => (5 * l3) / 4,
            GrowthRate::Erratic => if level <= 50 {
                (l3 * (100 - level)) / 50
            } else if level <= 68 {
                (l3 * (150 - level)) / 100
            } else if level <= 98 {
                (l3 * ((1911 - 10 * level) / 3)) / 500
            } else {
                (l3 * (160 - level)) / 100
            },
            GrowthRate::Fluctuating => if level <= 15 {
                (l3 * (((level + 1) / 3) + 24)) / 50
            } else if level <= 36 {
                (l3 * (level + 14)) / 50
            } else {
                (l3 * ((level / 2) + 32)) / 50
            },
        }
    }
}


/// The highest level in `0..=top` whose requirement `experience` meets.
pub open spec fn highest_level_within(rate: GrowthRate, experience: int, top: int) -> int
    decreases top,
{
    if top <= 0 {
        0
    } else if exp_for(rate, top) <= experience {
        top
    } else {
        highest_level_within(rate, experience, top - 1)
    }
}

/// The level that `experience` points earn on the curve `rate`: the highest
/// level up to 100 whose requirement is met.
pub open spec fn level_for(rate: GrowthRate, experience: int) -> int {
    highest_level_within(rate, experience, MAX_LEVEL as int)
}

/// The greatest level in `0..=top` meeting the requirement is the one the
/// downward scan finds.
proof fn lemma_highest_level_characterized(rate: GrowthRate, experience: int, top: int, r: int)
    requires
        0 <= r <= top,
        exp_for(rate, r) <= experience,
        forall|l: int| r < l <= top ==> exp_for(rate, l) > experience,
    ensures
        highest_level_within(rate, experience, top) == r,
    decreases top,
{
    if top > r {
        lemma_highest_level_characterized(rate, experience, top - 1, r);
    }
}

proof fn lemma_cube_bound(level: int)
    by (nonlinear_arith)
    requires
        0 <= level <= 100,
    ensures
        0 <= level * level <= 10000,
        0 <= level * level * level <= 1000000,
{
}


proof fn lemma_cube_succ(l: int)
    by (nonlinear_arith)
    ensures
        (l + 1) * (l + 1) * (l + 1) == l * l * l + 3 * (l * l) + 3 * l + 1,
        (l + 1) * (l + 1) == l * l + 2 * l + 1,
        l * l * l == (l * l) * l,
{
}

/// Raising both factors of a product of non-negative numbers adds at least
/// the growth of the first factor times the second.
proof fn lemma_product_growth(c: int, c1: int, g: int, g1: int)
    by (nonlinear_arith)
    requires
        0 <= c <= c1,
        0 <= g <= g1,
    ensures
        c1 * g1 - c * g >= (c1 - c) * g,
{
}

proof fn lemma_step_fast(l: int)
    requires
        2 <= l <= 99,
    ensures
        exp_for(GrowthRate::Fast, l) < exp_for(GrowthRate::Fast, l + 1),
{
    lemma_cube_succ(l);
    assert(3 * (l * l) + 3 * l + 1 >= 7) by (nonlinear_arith)
        requires l >= 2;
}

proof fn lemma_step_medium_fast(l: int)
    requires
        2 <= l <= 99,
    ensures
        exp_for(GrowthRate::MediumFast, l) < exp_for(GrowthRate::MediumFast, l + 1),
{
    lemma_cube_succ(l);
    assert(3 * (l * l) + 3 * l + 1 >= 7) by (nonlinear_arith)
        requires l >= 2;
}

proof fn lemma_step_slow(l: int)
    requires
        2 <= l <= 99,
    ensures
        exp_for(GrowthRate::Slow, l) < exp_for(GrowthRate::Slow, l + 1),
{
    lemma_cube_succ(l);
    assert(3 * (l * l) + 3 * l + 1 >= 7) by (nonlinear_arith)
        requires l >= 2;
}

/// On the medium-slow curve the raw difference `positive - negative` grows
/// by at least one from each level to the next.
proof fn lemma_medium_slow_raw_step(l: int)
    requires
        2 <= l,
    ensures
        ({
            let c = l * l * l;
            let c1 = (l + 1) * (l + 1) * (l + 1);
            (6 * c1) / 5 + 100 * (l + 1) - (15 * ((l + 1) * (l + 1)) + 140)
                > (6 * c) / 5 + 100 * l - (15 * (l * l) + 140)
        }),
{
    lemma_cube_succ(l);
    let c = l * l * l;
    let c1 = (l + 1) * (l + 1) * (l + 1);
    let a0 = (6 * c) / 5;
    let a1 = (6 * c1) / 5;
    assert(5 * a0 <= 6 * c);
    assert(5 * a1 >= 6 * c1 - 4);
    assert(18 * (l * l) - 132 * l + 422 > 0) by (nonlinear_arith)
        requires l >= 2;
}

/// From level 2 on, the medium-slow formula never saturates at zero.
proof fn lemma_medium_slow_positive(l: int)
    requires
        2 <= l,
    ensures
        (6 * (l * l * l)) / 5 + 100 * l > 15 * (l * l) + 140,
    decreases l,
{
    if l == 2 {
        assert((6 * (2 * 2 * 2)) / 5 + 100 * 2 > 15 * (2 * 2) + 140) by (nonlinear_arith);
    } else {
        let k = l - 1;
        lemma_medium_slow_positive(k);
        lemma_medium_slow_raw_step(k);
        assert(k + 1 == l);
        assert((k + 1) * (k + 1) * (k + 1) == l * l * l);
        assert((k + 1) * (k + 1) == l * l);
    }
}

proof fn lemma_step_medium_slow(l: int)
    requires
        2 <= l <= 99,
    ensures
        exp_for(GrowthRate::MediumSlow, l) < exp_for(GrowthRate::MediumSlow, l + 1),
{
    lemma_medium_slow_positive(l);
    lemma_medium_slow_positive(l + 1);
    lemma_medium_slow_raw_step(l);
}

proof fn lemma_step_erratic(l: int)
    requires
        2 <= l <= 99,
    ensures
        exp_for(GrowthRate::Erratic, l) < exp_for(GrowthRate::Erratic, l + 1),
{
    lemma_cube_succ(l);
    let c = l * l * l;
    let c1 = (l + 1) * (l + 1) * (l + 1);
    let d = 3 * (l * l) + 3 * l + 1;
    if l <= 49 {
        assert(c1 * (99 - l) - c * (100 - l) >= 50) by (nonlinear_arith)
            requires
                2 <= l <= 49,
                c == l * l * l,
                c1 == c + d,
                d == 3 * (l * l) + 3 * l + 1,
        {
            assert(c1 * (99 - l) - c * (100 - l) == d * (99 - l) - c);
            assert(c <= 49 * (l * l));
            assert(d * (99 - l) >= 3 * (l * l) * 50);
        }
    } else if l == 50 {
        assert(exp_for(GrowthRate::Erratic, 50) < exp_for(GrowthRate::Erratic, 51)) by (nonlinear_arith);
    } else if l <= 67 {
        assert(c1 * (149 - l) - c * (150 - l) >= 100) by (nonlinear_arith)
            requires
                51 <= l <= 67,
                c == l * l * l,
                c1 == c + d,
                d == 3 * (l * l) + 3 * l + 1,
        {
            assert(c1 * (149 - l) - c * (150 - l) == d * (149 - l) - c);
            assert(c <= 67 * (l * l));
            assert(d * (149 - l) >= 3 * (l * l) * 82);
        }
    } else if l == 68 {
        assert(exp_for(GrowthRate::Erratic, 68) < exp_for(GrowthRate::Erratic, 69)) by (nonlinear_arith);
    } else if l <= 97 {
        let g = (1911 - 10 * l) / 3;
        let g1 = (1911 - 10 * (l + 1)) / 3;
        assert(g1 >= g - 4);
        assert(313 <= g <= 407);
        assert(c1 * g1 - c * g >= 500) by (nonlinear_arith)
            requires
                69 <= l <= 97,
                c == l * l * l,
                c1 == c + d,
                d == 3 * (l * l) + 3 * l + 1,
                g1 >= g - 4,
                313 <= g,
                g1 >= 0,
                c1 == (l + 1) * (l + 1) * (l + 1),
        {
            assert(c1 * g1 >= c1 * (g - 4));
            assert(c1 * (g - 4) == c * g + d * g - 4 * c1);
            assert(d * g >= d * 313);
            assert(c1 <= 98 * ((l + 1) * (l + 1)));
        }
    } else if l == 98 {
        assert(exp_for(GrowthRate::Erratic, 98) < exp_for(GrowthRate::Erratic, 99)) by (nonlinear_arith);
    } else {
        assert(exp_for(GrowthRate::Erratic, 99) < exp_for(GrowthRate::Erratic, 100)) by (nonlinear_arith);
    }
}

proof fn lemma_step_fluctuating(l: int)
    requires
        2 <= l <= 99,
    ensures
        exp_for(GrowthRate::Fluctuating, l) < exp_for(GrowthRate::Fluctuating, l + 1),
{
    lemma_cube_succ(l);
    let c = l * l * l;
    let c1 = (l + 1) * (l + 1) * (l + 1);
    assert(c1 - c >= 7) by (nonlinear_arith)
        requires l >= 2, c1 - c == 3 * (l * l) + 3 * l + 1;
    assert(c >= 0) by (nonlinear_arith)
        requires l >= 0, c == l * l * l;
    if l <= 14 {
        let g = ((l + 1) / 3) + 24;
        let g1 = ((l + 2) / 3) + 24;
        lemma_product_growth(c, c1, g, g1);
        assert((c1 - c) * g >= 50) by (nonlinear_arith)
            requires c1 - c >= 7, g >= 24;
    } else if l == 15 {
        assert(exp_for(GrowthRate::Fluctuating, 15) < exp_for(GrowthRate::Fluctuating, 16)) by (nonlinear_arith);
    } else if l <= 35 {
        let g = l + 14;
        let g1 = l + 15;
        lemma_product_growth(c, c1, g, g1);
        assert((c1 - c) * g >= 50) by (nonlinear_arith)
            requires c1 - c >= 7, g >= 24;
    } else if l == 36 {
        assert(exp_for(GrowthRate::Fluctuating, 36) < exp_for(GrowthRate::Fluctuating, 37)) by (nonlinear_arith);
    } else {
        let g = (l / 2) + 32;
        let g1 = ((l + 1) / 2) + 32;
        lemma_product_growth(c, c1, g, g1);
        assert((c1 - c) * g >= 50) by (nonlinear_arith)
            requires c1 - c >= 7, g >= 24;
    }
}

/// Each level needs strictly more experience than the one before it,
/// from level 1 up to level 100.
proof fn lemma_exp_step(rate: GrowthRate, l: int)
    requires
        1 <= l < MAX_LEVEL,
    ensures
        exp_for(rate, l) < exp_for(rate, l + 1),
{
    if l == 1 {
        assert(exp_for(rate, 2) > 0) by (nonlinear_arith);
    } else {
        match rate {
            GrowthRate::Fast => lemma_step_fast(l),
            GrowthRate::MediumFast => lemma_step_medium_fast(l),
            GrowthRate::MediumSlow => lemma_step_medium_slow(l),
            GrowthRate::Slow => lemma_step_slow(l),
            GrowthRate::Erratic => lemma_step_erratic(l),
            GrowthRate::Fluctuating => lemma_step_fluctuating(l),
        }
    }
}

/// Every curve is strictly increasing from level 1 to level 100: a higher
/// level always needs more experience.
pub proof fn lemma_experience_strictly_increasing(rate: GrowthRate, a: int, b: int)
    requires
        1 <= a < b <= MAX_LEVEL,
    ensures
        exp_for(rate, a) < exp_for(rate, b),
    decreases b - a,
{
    lemma_exp_step(rate, a);
    if a + 1 < b {
        lemma_experience_strictly_increasing(rate, a + 1, b);
    }
}


/// Reaching the experience a level requires puts a Pokémon at exactly that
/// level, for every level from 1 to 100.
pub proof fn lemma_level_of_level_experience(rate: GrowthRate, level: int)
    requires
        1 <= level <= MAX_LEVEL,
    ensures
        level_for(rate, exp_for(rate, level)) == level,
{
    assert forall|l: int| level < l <= MAX_LEVEL implies exp_for(rate, l) > exp_for(rate, level) by {
        lemma_experience_strictly_increasing(rate, level, l);
    }
    lemma_highest_level_characterized(rate, exp_for(rate, level), MAX_LEVEL as int, level);
}

/// The level earned lies in `1..=100`; its requirement is met, and the
/// requirement of the next level (below 100) is not.
pub proof fn lemma_level_bounds(rate: GrowthRate, experience: int)
    requires
        0 <= experience,
    ensures
        1 <= level_for(rate, experience) <= MAX_LEVEL,
        exp_for(rate, level_for(rate, experience)) <= experience,
        level_for(rate, experience) < MAX_LEVEL ==> experience < exp_for(
            rate,
            level_for(rate, experience) + 1,
        ),
{
    lemma_highest_level_bounds(rate, experience, MAX_LEVEL as int);
}

proof fn lemma_highest_level_bounds(rate: GrowthRate, experience: int, top: int)
    requires
        0 <= experience,
        1 <= top <= MAX_LEVEL,
    ensures
        1 <= highest_level_within(rate, experience, top) <= top,
        exp_for(rate, highest_level_within(rate, experience, top)) <= experience,
        forall|l: int|
            highest_level_within(rate, experience, top) < l <= top ==> exp_for(rate, l)
                > experience,
    decreases top,
{
    if top > 1 && exp_for(rate, top) > experience {
        lemma_highest_level_bounds(rate, experience, top - 1);
    }
}

/// More experience never means a lower level.
pub proof fn lemma_level_monotonic(rate: GrowthRate, x: int, y: int)
    requires
        0 <= x <= y,
    ensures
        level_for(rate, x) <= level_for(rate, y),
{
    lemma_highest_level_bounds(rate, x, MAX_LEVEL as int);
    lemma_highest_level_bounds(rate, y, MAX_LEVEL as int);
}

impl GrowthRate {

    /// Number of growth rates.
    pub const COUNT: usize = 6;

    /// Every growth rate, in declaration order.
    pub const VARIANTS: [GrowthRate; 6] = [
        GrowthRate::Fluctuating,
        GrowthRate::Slow,
        GrowthRate::MediumSlow,
        GrowthRate::MediumFast,
        GrowthRate::Fast,
        GrowthRate::Erratic,
    ];

    /// The experience table: row `r` holds, for every level `0..=100`, the
    /// experience that level needs on the `r`-th growth rate of
    /// [`GrowthRate::VARIANTS`], written out. Its entries are not proved
    /// here; the tests check that they equal the table that
    /// [`GrowthRate::compute_exp_table`] returns, whose entries are proved.
    pub const EXP_TABLE: [[u32; 101]; 6] = [
        // Fluctuating
        [
            0, 0, 4, 13, 32, 65, 112, 178, 276, 393,
            540, 745, 967, 1230, 1591, 1957, 2457, 3046, 3732, 4526,
            5440, 6482, 7666, 9003, 10506, 12187, 14060, 16140, 18439, 20974,
            23760, 26811, 30146, 33780, 37731, 42017, 46656, 50653, 55969, 60505,
            66560, 71677, 78533, 84277, 91998, 98415, 107069, 114205, 123863, 131766,
            142500, 151222, 163105, 172697, 185807, 196322, 210739, 222231, 238036, 250562,
            267840, 281456, 300293, 315059, 335544, 351520, 373744, 390991, 415050, 433631,
            459620, 479600, 507617, 529063, 559209, 582187, 614566, 639146, 673863, 700115,
            737280, 765275, 804997, 834809, 877201, 908905, 954084, 987754, 1035837, 1071552,
            1122660, 1160499, 1214753, 1254796, 1312322, 1354652, 1415577, 1460276, 1524731, 1571884,
            1640000,
        ],
        // Slow
        [
            0, 0, 10, 33, 80, 156, 270, 428, 640, 911,
            1250, 1663, 2160, 2746, 3430, 4218, 5120, 6141, 7290, 8573,
            10000, 11576, 13310, 15208, 17280, 19531, 21970, 24603, 27440, 30486,
            33750, 37238, 40960, 44921, 49130, 53593, 58320, 63316, 68590, 74148,
            80000, 86151, 92610, 99383, 106480, 113906, 121670, 129778, 138240, 147061,
            156250, 165813, 175760, 186096, 196830, 207968, 219520, 231491, 243890, 256723,
            270000, 283726, 297910, 312558, 327680, 343281, 359370, 375953, 393040, 410636,
            428750, 447388, 466560, 486271, 506530, 527343, 548720, 570666, 593190, 616298,
            640000, 664301, 689210, 714733, 740880, 767656, 795070, 823128, 851840, 881211,
            911250, 941963, 973360, 1005446, 1038230, 1071718, 1105920, 1140841, 1176490, 1212873,
            1250000,
        ],
        // MediumSlow
        [
            0, 0, 9, 57, 96, 135, 179, 236, 314, 419,
            560, 742, 973, 1261, 1612, 2035, 2535, 3120, 3798, 4575,
            5460, 6458, 7577, 8825, 10208, 11735, 13411, 15244, 17242, 19411,
            21760, 24294, 27021, 29949, 33084, 36435, 40007, 43808, 47846, 52127,
            56660, 61450, 66505, 71833, 77440, 83335, 89523, 96012, 102810, 109923,
            117360, 125126, 133229, 141677, 150476, 159635, 169159, 179056, 189334, 199999,
            211060, 222522, 234393, 246681, 259392, 272535, 286115, 300140, 314618, 329555,
            344960, 360838, 377197, 394045, 411388, 429235, 447591, 466464, 485862, 505791,
            526260, 547274, 568841, 590969, 613664, 636935, 660787, 685228, 710266, 735907,
            762160, 789030, 816525, 844653, 873420, 902835, 932903, 963632, 995030, 1027103,
            1059860,
        ],
        // MediumFast
        [
            0, 0, 8, 27, 64, 125, 216, 343, 512, 729,
            1000, 1331, 1728, 2197, 2744, 3375, 4096, 4913, 5832, 6859,
            8000, 9261, 10648, 12167, 13824, 15625, 17576, 19683, 21952, 24389,
            27000, 29791, 32768, 35937, 39304, 42875, 46656, 50653, 54872, 59319,
            64000, 68921, 74088, 79507, 85184, 91125, 97336, 103823, 110592, 117649,
            125000, 132651, 140608, 148877, 157464, 166375, 175616, 185193, 195112, 205379,
            216000, 226981, 238328, 250047, 262144, 274625, 287496, 300763, 314432, 328509,
            343000, 357911, 373248, 389017, 405224, 421875, 438976, 456533, 474552, 493039,
            512000, 531441, 551368, 571787, 592704, 614125, 636056, 658503, 681472, 704969,
            729000, 753571, 778688, 804357, 830584, 857375, 884736, 912673, 941192, 970299,
            1000000,
        ],
        // Fast
        [
            0, 0, 6, 21, 51, 100, 172, 274, 409, 583,
            800, 1064, 1382, 1757, 2195, 2700, 3276, 3930, 4665, 5487,
            6400, 7408, 8518, 9733, 11059, 12500, 14060, 15746, 17561, 19511,
            21600, 23832, 26214, 28749, 31443, 34300, 37324, 40522, 43897, 47455,
            51200, 55136, 59270, 63605, 68147, 72900, 77868, 83058, 88473, 94119,
            100000, 106120, 112486, 119101, 125971, 133100, 140492, 148154, 156089, 164303,
            172800, 181584, 190662, 200037, 209715, 219700, 229996, 240610, 251545, 262807,
            274400, 286328, 298598, 311213, 324179, 337500, 351180, 365226, 379641, 394431,
            409600, 425152, 441094, 457429, 474163, 491300, 508844, 526802, 545177, 563975,
            583200, 602856, 622950, 643485, 664467, 685900, 707788, 730138, 752953, 776239,
            800000,
        ],
        // Erratic
        [
            0, 0, 15, 52, 122, 237, 406, 637, 942, 1326,
            1800, 2369, 3041, 3822, 4719, 5737, 6881, 8155, 9564, 11111,
            12800, 14632, 16610, 18737, 21012, 23437, 26012, 28737, 31610, 34632,
            37800, 41111, 44564, 48155, 51881, 55737, 59719, 63822, 68041, 72369,
            76800, 81326, 85942, 90637, 95406, 100237, 105122, 110052, 115015, 120001,
            125000, 131324, 137795, 144410, 151165, 158056, 165079, 172229, 179503, 186894,
            194400, 202013, 209728, 217540, 225443, 233431, 241496, 249633, 257834, 267406,
            276458, 286328, 296358, 305767, 316074, 326531, 336255, 346965, 357812, 367807,
            378880, 390077, 400293, 411686, 423190, 433572, 445239, 457001, 467489, 479378,
            491346, 501878, 513934, 526049, 536557, 548720, 560922, 571333, 583539, 591882,
            600000,
        ],
    ];

    /// Position of this rate in declaration order.
    pub open spec fn spec_index(self) -> int {
        match self {
            GrowthRate::Fluctuating => 0,
            GrowthRate::Slow => 1,
            GrowthRate::MediumSlow => 2,
            GrowthRate::MediumFast => 3,
            GrowthRate::Fast => 4,
            GrowthRate::Erratic => 5,
        }
    }

    /// Position of this rate in declaration order.
    pub fn index(self) -> (i: usize)
        ensures
            i == self.spec_index(),
            i < GrowthRate::COUNT,
    {
        match self {
            GrowthRate::Fluctuating => 0,
            GrowthRate::Slow => 1,
            GrowthRate::MediumSlow => 2,
            GrowthRate::MediumFast => 3,
            GrowthRate::Fast => 4,
            GrowthRate::Erratic => 5,
        }
    }

    /// The full experience table: row `r` holds, for every level `0..=100`,
    /// the experience that level needs on the `r`-th growth rate.
    pub fn compute_exp_table() -> (table: [[u32; 101]; 6])
        ensures
            forall|r: int, l: int|
                0 <= r < 6 && 0 <= l <= MAX_LEVEL ==> #[trigger] table[r][l] == exp_for(
                    GrowthRate::VARIANTS[r],
                    l,
                ),
    {
        let mut table = [[0u32; 101]; 6];
        let mut rate_index: usize = 0;
        while rate_index < GrowthRate::COUNT
            invariant
                rate_index <= GrowthRate::COUNT,
                forall|r: int, l: int|
                    0 <= r < rate_index && 0 <= l <= MAX_LEVEL ==> #[trigger] table[r][l]
                        == exp_for(GrowthRate::VARIANTS[r], l),
            decreases GrowthRate::COUNT - rate_index,
        {
            let rate = GrowthRate::VARIANTS[rate_index];
            let mut row = [0u32; 101];
            let mut level: u32 = 0;
            while level <= MAX_LEVEL
                invariant
                    level <= MAX_LEVEL + 1,
                    forall|l: int| 0 <= l < level ==> #[trigger] row[l] == exp_for(rate, l),
                decreases MAX_LEVEL + 1 - level,
            {
                row[level as usize] = rate.experience_for_level(level);
                level += 1;
            }
            table[rate_index] = row;
            rate_index += 1;
        }
        table
    }

    /// The level reached with `experience` points on this curve: the highest
    /// level up to 100 whose requirement is met (levels 0 and 1 need none).
    pub fn level(self, experience: u32) -> (level: u32)
        ensures
            level == level_for(self, experience as int),
            1 <= level <= MAX_LEVEL,
    {
        // Binary search for the last level whose requirement is met.
        let mut low: u32 = 1;
        let mut high: u32 = MAX_LEVEL;
        while low < high
            invariant
                1 <= low <= high <= MAX_LEVEL,
                exp_for(self, low as int) <= experience,
                forall|l: int| high < l <= MAX_LEVEL ==> exp_for(self, l) > experience,
            decreases high - low,
        {
            let mid: u32 = low + (high - low + 1) / 2;
            if self.experience_for_level(mid) <= experience {
                low = mid;
            } else {
                assert forall|l: int| mid <= l <= MAX_LEVEL implies exp_for(self, l) > experience by {
                    if mid < l {
                        lemma_experience_strictly_increasing(self, mid as int, l);
                    }
                }
                high = mid - 1;
            }
        }
        proof {
            lemma_highest_level_characterized(self, experience as int, MAX_LEVEL as int, low as int);
        }
        low
    }

    /// Experience needed to reach `level` (at most 100) on this curve.
    pub fn experience_for_level(self, level: u32) -> (exp: u32)
        requires
            level <= MAX_LEVEL,
        ensures
            exp == exp_for(self, level as int),
    {
        if level < 2 {
            return 0;
        }
        proof {
            lemma_cube_bound(level as int);
        }
        let l2: u32 = level * level;
        let l3: u32 = l2 * level;
        assert(l3 == level * level * level);
        match self {
            GrowthRate::Fast => (4 * l3) / 5,
            GrowthRate::MediumFast => l3,
            GrowthRate::MediumSlow => {
                let positive: u32 = (6 * l3) / 5 + 100 * level;
                let negative: u32 = 15 * l2 + 140;
                positive.saturating_sub(negative)
            },
            GrowthRate::Slow => (5 * l3) / 4,
            GrowthRate::Erratic => {
                if level <= 50 {
                    assert(l3 * (100 - level) <= 100000000) by (nonlinear_arith)
                        requires l3 <= 1000000, level <= 100;
                    (l3 * (100 - level)) / 50
                } else if level <= 68 {
                    assert(l3 * (150 - level) <= 150000000) by (nonlinear_arith)
                        requires l3 <= 1000000, level <= 100;
                    (l3 * (150 - level)) / 100
                } else if level <= 98 {
                    let factor: u32 = (1911 - 10 * level) / 3;
                    assert(l3 * factor <= 1000000000) by (nonlinear_arith)
                        requires l3 <= 1000000, factor <= 1000;
                    (l3 * factor) / 500
                } else {
                    assert(l3 * (160 - level) <= 160000000) by (nonlinear_arith)
                        requires l3 <= 1000000, level <= 100;
                    (l3 * (160 - level)) / 100
                }
            },
            GrowthRate::Fluctuating => {
                if level <= 15 {
                    let factor: u32 = ((level + 1) / 3) + 24;
                    assert(l3 * factor <= 100000000) by (nonlinear_arith)
                        requires l3 <= 1000000, factor <= 100;
                    (l3 * factor) / 50
                } else if level <= 36 {
                    assert(l3 * (level + 14) <= 200000000) by (nonlinear_arith)
                        requires l3 <= 1000000, level <= 100;
                    (l3 * (level + 14)) / 50
                } else {
                    let factor: u32 = (level / 2) + 32;
                    assert(l3 * factor <= 200000000) by (nonlinear_arith)
                        requires l3 <= 1000000, factor <= 200;
                    (l3 * factor) / 50
                }
            },
        }
    }
}

} // verus!
