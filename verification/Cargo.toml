[package]
name = "cash_tracker"
version = "0.1.0"
edition = "2021"
publish = false

[dependencies]
async-trait = "=0.1.92"
dotenvy = "=0.15.7"
image = { version = "=0.25.10", default-features = false, features = ["png"] }
libsql = { version = "=0.10.0", default-features = false, features = ["remote", "tls"] }
moka = { version = "=0.12.16", features = ["sync"] }
plotters = { version = "=0.3.7", default-features = false, features = ["bitmap_backend", "ttf"] }
reqwest = { version = "=0.12.28", features = ["json"] }
serde = { version = "=1.0.229", features = ["derive"] }
serde_json = "=1.0.154"
takecell = "=0.1.1"
teloxide = "=0.17.0"
thiserror = "=2.0.21"
tokio = { version = "=1.54.1", features = ["macros", "rt-multi-thread", "sync", "time"] }
tracing = "=0.1.44"
tracing-subscriber = { version = "=0.3.23", features = ["env-filter"] }
