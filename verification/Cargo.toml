[package]
name = "fact_gen"
version = "0.1.0"
edition = "2021"
publish = false

[dependencies]
Inflector = "*"
syn = "*"
quote = "*"
proc-macro2 = "*"
