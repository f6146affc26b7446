[package]
name = "term_ir"
version = "0.1.0"
edition = "2021"
publish = false

[dependencies]
egg = "0.9"
smallvec = "1"
