[package]
name = "zapret_ux"
version = "0.1.0"
edition = "2021"
publish = false

[dependencies]
anyhow = "1"
camino = { version = "1", features = ["serde1"] }
clap = { version = "4", features = ["derive"] }
confy = "*"
serde = { version = "1", features = ["derive"] }
thiserror = "*"
tracing = "0.1"
