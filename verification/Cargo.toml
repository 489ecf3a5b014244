[package]
name = "kubesolv_solvers"
version = "0.1.0"
edition = "2021"
publish = false

[dependencies]
clap = { version = "4", features = ["derive"] }
crossterm = "0.27"
itertools = "0.14"
rand = "0.9"
ratatui = "0.26"
