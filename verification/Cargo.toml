[package]
name = "wam_macros"
version = "0.1.0"
edition = "2021"
publish = false

[dependencies]
proc-macro2 = "1"
quote = "1"
syn = { version = "2", features = ["full", "extra-traits"] }
darling = "0.20"
regex = "1"
serde = { version = "1", features = ["derive"] }
toml = "0.8"
confique = { version = "0.2", default-features = false, features = ["toml"] }
platform-dirs = "0.3"
