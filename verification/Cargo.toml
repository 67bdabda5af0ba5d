[package]
name = "rcli"
version = "0.1.0"
edition = "2021"
publish = false

[dependencies]
chia-wallet-sdk = { version = "=0.33.0", features = ["action-layer"] }
chia-puzzle-types = "=0.36.1"
chia-puzzles = "=0.20.3"
clvm-traits = "=0.36.1"
clvmr = "=0.16.4"
hex = "=0.4.3"
hex-literal = "=0.4.1"
clap = { version = "4", default-features = false, features = ["derive", "std", "help", "usage", "error-context"] }
csv = "=1.4.0"
reqwest = { version = "=0.12.28", features = ["json"] }
serde = { version = "1", features = ["derive"] }
tokio = { version = "=1.54.1", features = ["macros", "rt-multi-thread"] }
