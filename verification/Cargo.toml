[package]
name = "portrait"
version = "0.1.0"
edition = "2021"
publish = false

[dependencies]
heck = "0.4"
itertools = "0.11"
proc-macro2 = "1"
quote = "1"
rand = "0.8"
syn = { version = "2", features = ["full", "visit", "visit-mut", "extra-traits"] }
