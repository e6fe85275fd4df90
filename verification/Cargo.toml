[package]
name = "interface_codegen"
version = "0.1.0"
edition = "2021"
publish = false

[dependencies]
proc-macro2 = "1.0"
quote = "1.0"
syn = { version = "1.0", features = ["full", "extra-traits"] }
