[package]
name = "lure"
version = "0.1.0"
edition = "2021"
publish = false

[dependencies]
anyhow = "*"
clap = { version = "*", features = ["derive"] }
figment = { version = "*", features = ["yaml", "env"] }
figment_file_provider_adapter = "*"
inquire = "*"
reqwest = { version = "*", default-features = false, features = ["json"] }
rive-models = "*"
serde = { version = "*", features = ["derive"] }
serde_json = "*"
thiserror = "*"
tokio = { version = "*", features = ["rt-multi-thread", "macros", "signal", "sync", "time"] }
tracing = "*"
tracing-subscriber = { version = "*", features = ["env-filter", "fmt"] }
