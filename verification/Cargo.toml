[package]
name = "sql_redis"
version = "0.1.0"
edition = "2021"
publish = false

[dependencies]
sqlparser = "0.55"
tera = "1"
clap = { version = "4", features = ["derive"] }
