[package]
name = "snowflake"
version = "0.1.0"
edition = "2021"
publish = false

[dependencies]
tokio = { version = "*", features = ["macros", "rt-multi-thread"] }
tonic = "*"
tower = "*"

[dev-dependencies]
itertools = "*"
