[package]
name = "eroteme"
version = "0.1.0"
edition = "2021"
publish = false

[dependencies]
rust-argon2 = "=3.0.0"
rand = "=0.10.3"
paseto = { version = "=2.0.2", default-features = false, features = ["v2"] }
base64 = "=0.13.1"
chrono = "=0.4.45"
serde = { version = "=1.0.229", features = ["derive"] }
serde_json = "=1.0.151"
warp = { version = "=0.4.3", features = ["server"] }
tokio = { version = "=1.53.2", features = ["macros", "rt-multi-thread", "sync", "time"] }
sqlx = { version = "=0.9.0", default-features = false, features = ["runtime-tokio", "postgres"] }
reqwest = { version = "=0.13.5", default-features = false, features = ["json"] }
reqwest-middleware = "=0.5.2"
reqwest-retry = "=0.9.1"
clap = { version = "=4.6.7", features = ["derive"] }
dotenv = "=0.15.0"
tracing = "=0.1.44"
tracing-subscriber = { version = "=0.3.23", features = ["env-filter"] }
futures-util = "=0.3.34"
bytes = "=1.12.1"
