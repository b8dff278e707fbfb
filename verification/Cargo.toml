[package]
name = "cratesup"
version = "0.1.0"
edition = "2021"
publish = false

[dependencies]
cargo_metadata = "0.18"
clap = { version = "4", features = ["derive"] }
colored = "2"
crates_io_api = "0.11"
semver = "1"
spinners = "4"
toml_edit = "0.22"
