[package]
name = "wasix_journal"
version = "0.1.0"
edition = "2021"
publish = false

[dependencies]
clap = { version = "*", features = ["derive"] }
colored = "*"
dialoguer = "*"
indicatif = "*"
is-terminal = "*"
tracing = "*"
tracing-subscriber = { version = "*", features = ["env-filter", "json"] }
