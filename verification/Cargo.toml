[package]
name = "energy_sims"
version = "0.1.0"
edition = "2021"
publish = false

[dependencies]
chrono = "0.4"
uuid = { version = "1", features = ["v4"] }
s2energy = "*"
tokio = { version = "1", features = ["rt-multi-thread", "macros", "signal", "time"] }
eyre = "0.6"
tracing = "0.1"
tracing-subscriber = "0.3"
csv = "1"
serde = { version = "1", features = ["derive"] }
