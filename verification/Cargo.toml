[package]
name = "ccp_const"
version = "0.1.0"
edition = "2021"
publish = false

[dependencies]
portus = "*"
slog = "*"
