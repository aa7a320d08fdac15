[package]
name = "viewtris"
version = "0.1.0"
edition = "2021"
publish = false

[dependencies]
itertools = "*"
macroquad = "=0.4.16"
proc-macro2 = "*"
quote = "*"
syn = "*"
tap = "*"
