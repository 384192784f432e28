[package]
name = "chat_relay"
version = "0.1.0"
edition = "2021"
publish = false

[dependencies]
tokio = { version = "=1.53.2", features = ["sync", "rt-multi-thread", "macros", "time", "net"] }
uuid = { version = "=1.27.0", features = ["v4"] }
serde = { version = "=1.0.229", features = ["derive"] }
serde_json = "=1.0.151"
warp = { version = "=0.4.3", features = ["server", "websocket"] }
sqlx = { version = "=0.9.0", default-features = false, features = ["runtime-tokio", "tls-rustls", "postgres", "chrono"] }
reqwest = { version = "=0.12.28", default-features = false, features = ["json", "rustls-tls"] }
chrono = "=0.4.45"
dotenv = "=0.15.0"
futures-util = "=0.3.34"
tracing-subscriber = "=0.3.23"
