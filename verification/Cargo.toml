[package]
name = "alma-negra"
version = "0.1.0"
edition = "2021"
publish = false

[dependencies]
dashmap = "5.5"
serde = { version = "1", features = ["derive"] }
serde_json = "1"
hound = "3"
vosk = "0.3"
serenity = { version = "0.12", default-features = false, features = ["client", "gateway", "framework", "standard_framework", "model", "cache", "rustls_backend"] }
songbird = { version = "0.4", default-features = false, features = ["driver", "gateway", "serenity", "rustls", "receive"] }
tokio = { version = "1", default-features = false, features = ["macros", "rt-multi-thread"] }
dotenv = "0.15"
tracing-subscriber = { version = "0.3", default-features = false, features = ["fmt"] }
lazy_static = "1"
once_cell = "1"
