[package]
name = "yrmos"
version = "0.1.0"
edition = "2021"
publish = false

[dependencies]
rust-argon2 = "1"
rand = "0.8"
crc = "3"
uuid = { version = "1", features = ["v4", "serde"] }
rust_decimal = "1"
chrono = { version = "0.4", features = ["serde"] }
axum = "0.6"
axum-extra = { version = "0.7", features = ["cookie-signed"] }
maud = { version = "0.25", features = ["axum"] }
sqlx = { version = "0.7", default-features = false, features = ["runtime-tokio", "postgres", "uuid", "chrono", "rust_decimal", "migrate", "macros"] }
tokio = { version = "1", features = ["macros", "rt-multi-thread"] }
serde = { version = "1", features = ["derive"] }
clap = { version = "4", features = ["derive", "env"] }
log = "0.4"
simple_logger = "4"
thiserror = "1"
hyper = "0.14"
chrono-humanize = "0.2"
tower-cookies = "0.9"
async-trait = "0.1"
