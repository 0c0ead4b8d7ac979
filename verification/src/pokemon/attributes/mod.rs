pub mod growth_rate;
pub mod stats;
pub mod nature;
pub mod types;
pub mod gender;
