[package]
name = "music_bot"
version = "0.1.0"
edition = "2021"
publish = false

[dependencies]
rand = "=0.8.8"
url = "=2.5.8"
serde = { version = "=1.0.229", features = ["derive"] }
toml = "=0.8.23"
tokio = { version = "=1.54.1", features = ["macros", "rt-multi-thread", "signal", "sync", "time"] }
tracing = "=0.1.44"
tracing-subscriber = { version = "=0.3.23", default-features = false, features = ["fmt", "std"] }
serenity = { version = "0.12", default-features = false, features = ["client", "gateway", "model", "cache", "rustls_backend", "builder", "http"] }
songbird = { version = "0.4", default-features = false, features = ["driver", "gateway", "serenity", "rustls", "builtin-queue"] }
reqwest = { version = "0.11", default-features = false, features = ["rustls-tls"] }
