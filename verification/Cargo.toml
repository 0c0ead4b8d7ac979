[package]
name = "directory"
version = "0.1.0"
edition = "2021"
publish = false

[dependencies]
rand = "*"
serde = { version = "1", features = ["derive"] }
toml = "*"
color-eyre = "*"
rayon = "*"
smallvec = { version = "*", features = ["serde"] }
strum = { version = "*", features = ["derive"] }
derive_more = { version = "*", features = ["display"] }
