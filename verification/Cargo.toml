[package]
name = "symtropy_evidence"
version = "0.1.0"
edition = "2021"
publish = false

[dependencies]
symtropy-physics = "*"
rand = "0.8"
