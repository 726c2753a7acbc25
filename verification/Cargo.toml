[package]
name = "style_rules"
version = "0.1.0"
edition = "2021"
publish = false

[dependencies]
cssparser = "*"
cssparser-color = "*"
selectors = "*"
precomputed-hash = "*"
