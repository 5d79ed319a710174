[package]
name = "substrate_lint"
version = "0.1.0"
edition = "2021"
publish = false

[dependencies]
regex = "1"
syn = { version = "2", features = ["full", "visit", "extra-traits"] }
quote = "1"
proc-macro2 = { version = "1", features = ["span-locations"] }
serde = { version = "1", features = ["derive"] }
serde_json = "1"
