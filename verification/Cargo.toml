[package]
name = "cons_value"
version = "0.1.0"
edition = "2021"
publish = false

[dependencies]
gc = "*"
gc_derive = "*"
