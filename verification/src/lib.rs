//! Species data, stat arithmetic, experience curves and move selection for a
//! Pokémon battle simulator, with the arithmetic and selection rules proved.

pub mod battle;
pub mod moves;
pub mod pokemon;
pub mod random;
