[package]
name = "strawberry_id"
version = "0.1.0"
edition = "2021"
publish = false

[dependencies]
rand = "0.9"
sha2 = "0.10"
hex = "0.4"
argon2 = "0.5"
totp-rs = { version = "5", features = ["qr", "otpauth", "gen_secret"] }
urlencoding = "2"
rocket = { version = "0.5", features = ["secrets", "json"] }
rocket_dyn_templates = { version = "0.2", features = ["tera"] }
serde = { version = "1", features = ["derive"] }
serde_json = "1"
serde_yaml = "0.9"
sqlx = { version = "0.8", default-features = false, features = ["sqlite", "runtime-tokio"] }
tokio = { version = "1", features = ["sync"] }
lazy_static = "1"
futures = "0.3"
uuid = { version = "1", features = ["v4"] }
