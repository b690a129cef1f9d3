[package]
name = "servify"
version = "0.1.0"
edition = "2021"
publish = false

[dependencies]
syn = { version = "2", features = ["full", "extra-traits"] }
proc-macro2 = "1"
quote = "1"
case = "1"
tokio = { version = "1", features = ["sync", "rt", "macros"] }
