[package]
name = "realtime_lint"
version = "0.1.0"
edition = "2021"
publish = false

[dependencies]
dylint_linting = "*"
proc-macro2 = "1"
quote = "1"
syn = { version = "2", features = ["full"] }
