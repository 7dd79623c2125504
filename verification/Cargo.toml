[package]
name = "fe_items"
version = "0.1.0"
edition = "2021"
publish = false

[dependencies]
indexmap = "1.6"
petgraph = "0.6"
