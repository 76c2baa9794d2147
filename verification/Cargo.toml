[package]
name = "git-test"
version = "0.1.0"
edition = "2021"
publish = false

[dependencies]
anyhow = "=1.0.104"
atty = "=0.2.14"
clap = { version = "=4.6.7", features = ["derive"] }
colored = "=2.2.0"
futures = "=0.3.34"
log = "=0.4.34"
regex = "=1.13.1"
simple_logger = "=4.3.3"
tokio = { version = "=1.54.1", features = ["fs", "macros", "process", "rt-multi-thread", "signal", "sync"] }
