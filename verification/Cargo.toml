[package]
name = "geovan"
version = "0.1.0"
edition = "2021"
publish = false

[dependencies]
chrono = { version = "0.4", features = ["serde"] }
uuid = { version = "1", features = ["v4", "serde"] }
num_cpus = "1"
serde = { version = "1", features = ["derive"] }
serde_json = "1"
thiserror = "1"
tracing = "0.1"
tracing-subscriber = { version = "0.3", features = ["env-filter"] }
dotenv = "0.15"
config = { version = "*", default-features = false, features = ["toml"] }
sqlx = { version = "*", default-features = false }
redis = { version = "*", default-features = false }
lapin = { version = "*", default-features = false }
prost = { version = "*", default-features = false, features = ["std"] }
