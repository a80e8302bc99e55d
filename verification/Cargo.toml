[package]
name = "mfp_bot"
version = "0.1.0"
edition = "2021"
publish = false

[dependencies]
serenity = { version = "=0.12.5", default-features = false, features = ["cache", "client", "framework", "gateway", "http", "model", "rustls_backend", "standard_framework", "voice"] }
songbird = { version = "0.5" }
reqwest = { version = "0.12", default-features = false }
tokio = { version = "1", default-features = false, features = ["macros", "rt-multi-thread", "signal"] }
tracing-subscriber = { version = "0.3", default-features = false, features = ["fmt"] }
