[package]
name = "sqltight"
version = "0.1.0"
edition = "2021"
publish = false

[dependencies]
proc-macro2 = "=1.0.107"
quote = "=1.0.47"
rusqlite = { version = "=0.41.0", features = ["column_decltype"] }
