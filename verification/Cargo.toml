[package]
name = "shrink"
version = "0.1.0"
edition = "2021"
publish = false

[dependencies]
chrono = { version = "0.4", default-features = false, features = ["std", "clock"] }
proc-macro2 = "1"
quote = "1"
syn = "2"
