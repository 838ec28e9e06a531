[package]
name = "nickel_builder"
version = "0.1.0"
edition = "2021"
publish = false

[dependencies]
codespan = "0.11"
nickel-lang-core = { version = "0.2", default-features = false }
