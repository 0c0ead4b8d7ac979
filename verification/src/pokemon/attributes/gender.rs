use vstd::prelude::*;

verus! {

/// A Pokémon's gender.
#[derive(Clone, Copy, Debug, PartialEq, Eq, Hash, Structural)]
pub enum Gender {
    Female,
    Male,
    /// No gender.
    Genderless,
}

impl Default for Gender {
    fn default() -> (gender: Self)
        ensures
            gender == Gender::Genderless,
    {
        Gender::Genderless
    }
}

impl Gender {
    /// Number of genders.
    pub const COUNT: usize = 3;

    /// Position of this gender in declaration order.
    pub open spec fn spec_index(self) -> int {
        match self {
            Gender::Female => 0,
            Gender::Male => 1,
            Gender::Genderless => 2,
        }
    }

    /// The gender at position `index` in declaration order, if there is one.
    pub fn from_repr(index: usize) -> (gender: Option<Gender>)
        ensures
            index < Gender::COUNT <==> gender is Some,
            gender matches Some(g) ==> g.spec_index() == index,
    {
        match index {
            0 => Some(Gender::Female),
            1 => Some(Gender::Male),
            2 => Some(Gender::Genderless),
            _ => None,
        }
    }
}

} // verus!
