[package]
name = "xtask_base"
version = "0.1.0"
edition = "2021"
publish = false

[dependencies]
duct = "*"
execute = "*"
clap = { version = "*", features = ["derive"] }
clap_complete = "*"
cargo_metadata = "*"
chrono = "*"
handlebars = "*"
serde_json = "*"
scopeguard = "*"
