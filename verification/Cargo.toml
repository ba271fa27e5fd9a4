[package]
name = "cargo_fresh"
version = "0.1.0"
edition = "2021"
publish = false

[dependencies]
anyhow = "1"
clap = { version = "4", features = ["derive"] }
clap_complete = "4"
clap_complete_nushell = "*"
colored = "*"
dialoguer = "*"
indicatif = "*"
tokio = { version = "1", features = ["macros", "rt-multi-thread", "time"] }
