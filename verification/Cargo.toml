[package]
name = "xx_core"
version = "0.1.0"
edition = "2021"
publish = false

[dependencies]
memchr = "2"
syn = { version = "2", features = ["full", "visit-mut", "extra-traits"] }
quote = "1"
proc-macro2 = "1"
