[package]
name = "lobsters_bench"
version = "0.1.0"
edition = "2021"
publish = false

[dependencies]
mysql_async = "*"
tokio = { version = "*", features = ["rt-multi-thread", "macros"] }
chrono = "*"
deadpool-postgres = "*"
tokio-postgres = "*"
