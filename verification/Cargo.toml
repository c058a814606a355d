[package]
name = "log_bootstrap"
version = "0.1.0"
edition = "2021"
publish = false

[dependencies]
slog = "*"
slog-term = "*"
slog-async = "*"
slog-scope = "*"
