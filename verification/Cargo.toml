[package]
name = "orchestrator"
version = "0.1.0"
edition = "2021"
publish = false

[dependencies]
clarity = "=1.7.0"
web30 = "=1.15.0"
slog = "=2.8.2"
slog-json = "=2.6.1"
chrono = "=0.4.45"
once_cell = "=1.21.4"
tokio = { version = "=1.54.1", features = ["time"] }
