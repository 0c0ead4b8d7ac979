use vstd::prelude::*;

verus! {

/// An elemental type of a Pokémon or a move.
#[derive(Clone, Copy, Debug, PartialEq, Eq, Hash, Structural)]
pub enum Type {
    Normal,
    Fire,
    Water,
    Electric,
    Grass,
    Ice,
    Fighting,
    Poison,
    Ground,
    Flying,
    Psychic,
    Bug,
    Rock,
    /// The Ghost type.
    GhostType,
    Dragon,
    Dark,
    Steel,
    Fairy,
}

/// A Pokémon's typing: a primary type and an optional secondary one.
pub type PokemonType = (Type, Option<Type>);

/// How well a move of one type hits a Pokémon of another.
#[derive(Clone, Copy, Debug, PartialEq, Eq, PartialOrd, Ord, Hash, Structural)]
pub enum Matchup {
    /// No effect at all.
    NoEffect,
    Half,
    Regular,
    Double,
}

impl Matchup {
    /// The damage multiplier, counted in halves: 0 for no effect, 1 for
    /// half, 2 for regular, 4 for double damage.
    pub open spec fn spec_multiplier_halves(self) -> u32 {
        match self {
            Matchup::NoEffect => 0,
            Matchup::Half => 1,
            Matchup::Regular => 2,
            Matchup::Double => 4,
        }
    }

    /// The damage multiplier, counted in halves.
    pub fn multiplier_halves(self) -> (halves: u32)
        ensures
            halves == self.spec_multiplier_halves(),
    {
        match self {
            Matchup::NoEffect => 0,
            Matchup::Half => 1,
            Matchup::Regular => 2,
            Matchup::Double => 4,
        }
    }
}

impl Type {
    /// Number of types.
    pub const COUNT: usize = 18;

    /// The type chart: row `a`, column `d` tells how a move of the `a`-th
    /// type hits a Pokémon of the `d`-th type, both in declaration order.
    pub const MATCHUPS: [[Matchup; 18]; 18] = [
        // Normal
        [
            Matchup::Regular,
            Matchup::Regular,
            Matchup::Regular,
            Matchup::Regular,
            Matchup::Regular,
            Matchup::Regular,
            Matchup::Regular,
            Matchup::Regular,
            Matchup::Regular,
            Matchup::Regular,
            Matchup::Regular,
            Matchup::Regular,
            Matchup::Half,
            Matchup::NoEffect,
            Matchup::Regular,
            Matchup::Regular,
            Matchup::Half,
            Matchup::Regular,
        ],
        // Fire
        [
            Matchup::Regular,
            Matchup::Half,
            Matchup::Half,
            Matchup::Regular,
            Matchup::Double,
            Matchup::Double,
            Matchup::Regular,
            Matchup::Regular,
            Matchup::Regular,
            Matchup::Regular,
            Matchup::Regular,
            Matchup::Double,
            Matchup::Half,
            Matchup::Regular,
            Matchup::Half,
            Matchup::Regular,
            Matchup::Double,
            Matchup::Regular,
        ],
        // Water
        [
            Matchup::Regular,
            Matchup::Double,
            Matchup::Half,
            Matchup::Regular,
            Matchup::Half,
            Matchup::Regular,
            Matchup::Regular,
            Matchup::Regular,
            Matchup::Double,
            Matchup::Regular,
            Matchup::Regular,
            Matchup::Regular,
            Matchup::Double,
            Matchup::Regular,
            Matchup::Half,
            Matchup::Regular,
            Matchup::Regular,
            Matchup::Regular,
        ],
        // Electric
        [
            Matchup::Regular,
            Matchup::Regular,
            Matchup::Double,
            Matchup::Half,
            Matchup::Half,
            Matchup::Regular,
            Matchup::Regular,
            Matchup::Regular,
            Matchup::NoEffect,
            Matchup::Double,
            Matchup::Regular,
            Matchup::Regular,
            Matchup::Regular,
            Matchup::Regular,
            Matchup::Half,
            Matchup::Regular,
            Matchup::Regular,
            Matchup::Regular,
        ],
        // Grass
        [
            Matchup::Regular,
            Matchup::Half,
            Matchup::Double,
            Matchup::Regular,
            Matchup::Half,
            Matchup::Regular,
            Matchup::Regular,
            Matchup::Half,
            Matchup::Double,
            Matchup::Half,
            Matchup::Regular,
            Matchup::Half,
            Matchup::Double,
            Matchup::Regular,
            Matchup::Half,
            Matchup::Regular,
            Matchup::Half,
            Matchup::Regular,
        ],
        // Ice
        [
            Matchup::Regular,
            Matchup::Half,
            Matchup::Half,
            Matchup::Regular,
            Matchup::Double,
            Matchup::Half,
            Matchup::Regular,
            Matchup::Regular,
            Matchup::Double,
            Matchup::Double,
            Matchup::Regular,
            Matchup::Regular,
            Matchup::Regular,
            Matchup::Regular,
            Matchup::Double,
            Matchup::Regular,
            Matchup::Half,
            Matchup::Regular,
        ],
        // Fighting
        [
            Matchup::Double,
            Matchup::Regular,
            Matchup::Regular,
            Matchup::Regular,
            Matchup::Regular,
            Matchup::Double,
            Matchup::Regular,
            Matchup::Half,
            Matchup::Regular,
            Matchup::Half,
            Matchup::Half,
            Matchup::Half,
            Matchup::Double,
            Matchup::NoEffect,
            Matchup::Regular,
            Matchup::Double,
            Matchup::Double,
            Matchup::Half,
        ],
        // Poison
        [
            Matchup::Regular,
            Matchup::Regular,
            Matchup::Regular,
            Matchup::Regular,
            Matchup::Double,
            Matchup::Regular,
            Matchup::Regular,
            Matchup::Half,
            Matchup::Half,
            Matchup::Regular,
            Matchup::Regular,
            Matchup::Regular,
            Matchup::Half,
            Matchup::Half,
            Matchup::Regular,
            Matchup::Regular,
            Matchup::NoEffect,
            Matchup::Double,
        ],
        // Ground
        [
            Matchup::Regular,
            Matchup::Double,
            Matchup::Regular,
            Matchup::Double,
            Matchup::Half,
            Matchup::Regular,
            Matchup::Regular,
            Matchup::Double,
            Matchup::Regular,
            Matchup::NoEffect,
            Matchup::Regular,
            Matchup::Half,
            Matchup::Double,
            Matchup::Regular,
            Matchup::Regular,
            Matchup::Regular,
            Matchup::Double,
            Matchup::Regular,
        ],
        // Flying
        [
            Matchup::Regular,
            Matchup::Regular,
            Matchup::Regular,
            Matchup::Half,
            Matchup::Double,
            Matchup::Regular,
            Matchup::Double,
            Matchup::Regular,
            Matchup::Regular,
            Matchup::Regular,
            Matchup::Regular,
            Matchup::Double,
            Matchup::Half,
            Matchup::Regular,
            Matchup::Regular,
            Matchup::Regular,
            Matchup::Half,
            Matchup::Regular,
        ],
        // Psychic
        [
            Matchup::Regular,
            Matchup::Regular,
            Matchup::Regular,
            Matchup::Regular,
            Matchup::Regular,
            Matchup::Regular,
            Matchup::Double,
            Matchup::Double,
            Matchup::Regular,
            Matchup::Regular,
            Matchup::Half,
            Matchup::Regular,
            Matchup::Regular,
            Matchup::Regular,
            Matchup::Regular,
            Matchup::NoEffect,
            Matchup::Half,
            Matchup::Regular,
        ],
        // Bug
        [
            Matchup::Regular,
            Matchup::Half,
            Matchup::Regular,
            Matchup::Regular,
            Matchup::Double,
            Matchup::Regular,
            Matchup::Half,
            Matchup::Half,
            Matchup::Regular,
            Matchup::Half,
            Matchup::Double,
            Matchup::Regular,
            Matchup::Regular,
            Matchup::Half,
            Matchup::Regular,
            Matchup::Double,
            Matchup::Half,
            Matchup::Half,
        ],
        // Rock
        [
            Matchup::Regular,
            Matchup::Double,
            Matchup::Regular,
            Matchup::Regular,
            Matchup::Regular,
            Matchup::Double,
            Matchup::Half,
            Matchup::Regular,
            Matchup::Half,
            Matchup::Double,
            Matchup::Regular,
            Matchup::Double,
            Matchup::Regular,
            Matchup::Regular,
            Matchup::Regular,
            Matchup::Regular,
            Matchup::Half,
            Matchup::Regular,
        ],
        // GhostType
        [
            Matchup::NoEffect,
            Matchup::Regular,
            Matchup::Regular,
            Matchup::Regular,
            Matchup::Regular,
            Matchup::Regular,
            Matchup::Regular,
            Matchup::Regular,
            Matchup::Regular,
            Matchup::Regular,
            Matchup::Double,
            Matchup::Regular,
            Matchup::Regular,
            Matchup::Double,
            Matchup::Regular,
            Matchup::Half,
            Matchup::Regular,
            Matchup::Regular,
        ],
        // Dragon
        [
            Matchup::Regular,
            Matchup::Regular,
            Matchup::Regular,
            Matchup::Regular,
            Matchup::Regular,
            Matchup::Regular,
            Matchup::Regular,
            Matchup::Regular,
            Matchup::Regular,
            Matchup::Regular,
            Matchup::Regular,
            Matchup::Regular,
            Matchup::Regular,
            Matchup::Regular,
            Matchup::Double,
            Matchup::Regular,
            Matchup::Half,
            Matchup::NoEffect,
        ],
        // Dark
        [
            Matchup::Regular,
            Matchup::Regular,
            Matchup::Regular,
            Matchup::Regular,
            Matchup::Regular,
            Matchup::Regular,
            Matchup::Half,
            Matchup::Regular,
            Matchup::Regular,
            Matchup::Regular,
            Matchup::Double,
            Matchup::Regular,
            Matchup::Regular,
            Matchup::Double,
            Matchup::Regular,
            Matchup::Half,
            Matchup::Regular,
            Matchup::Half,
        ],
        // Steel
        [
            Matchup::Regular,
            Matchup::Half,
            Matchup::Half,
            Matchup::Half,
            Matchup::Regular,
            Matchup::Double,
            Matchup::Regular,
            Matchup::Regular,
            Matchup::Regular,
            Matchup::Regular,
            Matchup::Regular,
            Matchup::Regular,
            Matchup::Double,
            Matchup::Regular,
            Matchup::Regular,
            Matchup::Regular,
            Matchup::Half,
            Matchup::Double,
        ],
        // Fairy
        [
            Matchup::Regular,
            Matchup::Half,
            Matchup::Regular,
            Matchup::Regular,
            Matchup::Regular,
            Matchup::Regular,
            Matchup::Double,
            Matchup::Half,
            Matchup::Regular,
            Matchup::Regular,
            Matchup::Regular,
            Matchup::Regular,
            Matchup::Regular,
            Matchup::Regular,
            Matchup::Double,
            Matchup::Double,
            Matchup::Half,
            Matchup::Regular,
        ],
    ];

    /// Position of this type in declaration order.
    pub open spec fn spec_index(self) -> int {
        match self {
            Type::Normal => 0,
            Type::Fire => 1,
            Type::Water => 2,
            Type::Electric => 3,
            Type::Grass => 4,
            Type::Ice => 5,
            Type::Fighting => 6,
            Type::Poison => 7,
            Type::Ground => 8,
            Type::Flying => 9,
            Type::Psychic => 10,
            Type::Bug => 11,
            Type::Rock => 12,
            Type::GhostType => 13,
            Type::Dragon => 14,
            Type::Dark => 15,
            Type::Steel => 16,
            Type::Fairy => 17,
        }
    }

    /// Position of this type in declaration order.
    pub fn index(self) -> (i: usize)
        ensures
            i == self.spec_index(),
            i < Type::COUNT,
    {
        match self {
            Type::Normal => 0,
            Type::Fire => 1,
            Type::Water => 2,
            Type::Electric => 3,
            Type::Grass => 4,
            Type::Ice => 5,
            Type::Fighting => 6,
            Type::Poison => 7,
            Type::Ground => 8,
            Type::Flying => 9,
            Type::Psychic => 10,
            Type::Bug => 11,
            Type::Rock => 12,
            Type::GhostType => 13,
            Type::Dragon => 14,
            Type::Dark => 15,
            Type::Steel => 16,
            Type::Fairy => 17,
        }
    }

    /// How a move of this type hits a Pokémon of type `other`, read from
    /// the type chart.
    pub open spec fn spec_matchup(self, other: Type) -> Matchup {
        Type::MATCHUPS[self.spec_index()][other.spec_index()]
    }

    /// How a move of this type hits a Pokémon of type `other`.
    pub fn matchup(self, other: Type) -> (m: Matchup)
        ensures
            m == self.spec_matchup(other),
    {
        Type::MATCHUPS[self.index()][other.index()]
    }

    /// The damage multiplier of a move of this type against a Pokémon with
    /// typing `target`, counted in quarters: the product of the multipliers
    /// against both of its types.
    pub open spec fn spec_multiplier_quarters(self, target: PokemonType) -> int {
        let first = self.spec_matchup(target.0).spec_multiplier_halves();
        match target.1 {
            Some(second) => first * self.spec_matchup(second).spec_multiplier_halves(),
            Option::None => first * 2,
        }
    }

    /// The damage multiplier of a move of this type against a Pokémon with
    /// typing `target`, counted in quarters (0, 1, 2, 4, 8 or 16).
    pub fn multiplier_against_quarters(self, target: PokemonType) -> (quarters: u32)
        ensures
            quarters == self.spec_multiplier_quarters(target),
            target.1 matches Some(second) ==> quarters == Type::MATCHUPS[self.spec_index()][target.0.spec_index()].spec_multiplier_halves()
                * Type::MATCHUPS[self.spec_index()][second.spec_index()].spec_multiplier_halves(),
            target.1 is None ==> quarters == 2 * Type::MATCHUPS[self.spec_index()][target.0.spec_index()].spec_multiplier_halves(),
            quarters == 0 || quarters == 1 || quarters == 2 || quarters == 4 || quarters == 8
                || quarters == 16,
    {
        let first = self.matchup(target.0).multiplier_halves();
        match target.1 {
            Some(second) => first * self.matchup(second).multiplier_halves(),
            Option::None => first * 2,
        }
    }

    /// The typing that a list of one or two types describes; any other
    /// length describes none.
    pub fn typing_from_list(types: &Vec<Type>) -> (typing: Option<PokemonType>)
        ensures
            typing is Some <==> (types.len() == 1 || types.len() == 2),
            types.len() == 1 ==> typing == Some((types[0], Option::<Type>::None)),
            types.len() == 2 ==> typing == Some((types[0], Some(types[1]))),
    {
        if types.len() == 1 {
            Some((types[0], Option::None))
        } else if types.len() == 2 {
            Some((types[0], Some(types[1])))
        } else {
            Option::None
        }
    }
}


/// A move's multiplier against a typing is read off the type chart: against
/// two types it is the product of its multipliers in halves against each of
/// them, so the order of the two types does not matter; against one type it
/// is twice its multiplier in halves against that type, which is what the
/// same type twice gives only when that multiplier is regular.
pub proof fn lemma_multiplier_from_chart(attacker: Type, first: Type, second: Type)
    ensures
        attacker.spec_multiplier_quarters((first, Some(second)))
            == Type::MATCHUPS[attacker.spec_index()][first.spec_index()].spec_multiplier_halves()
            * Type::MATCHUPS[attacker.spec_index()][second.spec_index()].spec_multiplier_halves(),
        attacker.spec_multiplier_quarters((first, Some(second)))
            == attacker.spec_multiplier_quarters((second, Some(first))),
        attacker.spec_multiplier_quarters((first, Option::None)) == 2
            * Type::MATCHUPS[attacker.spec_index()][first.spec_index()].spec_multiplier_halves(),
{
    let a = Type::MATCHUPS[attacker.spec_index()][first.spec_index()].spec_multiplier_halves() as int;
    let b = Type::MATCHUPS[attacker.spec_index()][second.spec_index()].spec_multiplier_halves() as int;
    assert(a * b == b * a) by (nonlinear_arith);
}

} // verus!
