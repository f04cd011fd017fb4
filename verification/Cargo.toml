[package]
name = "phone_lookup_rs"
version = "0.1.0"
edition = "2021"
publish = false

[dependencies]
actix-web = "*"
config = "*"
futures = "*"
num_cpus = "*"
serde = { version = "*", features = ["derive"] }
tracing = "*"
tracing-subscriber = { version = "*", features = ["json"] }
