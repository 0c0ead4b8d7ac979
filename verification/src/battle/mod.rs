pub mod pokemon;
