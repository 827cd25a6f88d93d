[package]
name = "hoare_logic"
version = "0.1.0"
edition = "2021"
publish = false

[dependencies]
backtrace = "0.3"
syn = { version = "2", features = ["full", "extra-traits"] }
