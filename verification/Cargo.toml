[package]
name = "colbridge"
version = "0.1.0"
edition = "2021"
publish = false

[dependencies]
libduckdb-sys = "=1.10506.0"
polars = { version = "=0.55.2", default-features = false }
polars-arrow = { version = "=0.55.2", default-features = false }
