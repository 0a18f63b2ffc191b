[package]
name = "spec_attr"
version = "0.1.0"
edition = "2021"
publish = false

[dependencies]
proc-macro2 = "=1.0.107"
quote = "=1.0.47"
syn = { version = "=3.0.6", features = ["full", "extra-traits"] }
prettyplease = "=0.3.0"
