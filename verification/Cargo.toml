[package]
name = "lake_ingest"
version = "0.1.0"
edition = "2021"
publish = false

[dependencies]
anyhow = "1"
arrow = { version = "*", default-features = false }
arrow-array = "*"
chrono = "0.4"
clap = { version = "4", default-features = false, features = ["derive", "std", "help", "usage", "error-context"] }
dotenvy = "0.15"
futures = "0.3"
iceberg = "*"
object_store = { version = "*", default-features = false, features = ["gcp"] }
parquet = { version = "*", default-features = false, features = ["arrow", "snap"] }
serde_json = "1"
tokio = { version = "1", features = ["macros", "rt-multi-thread", "time"] }
tracing = "0.1"
tracing-subscriber = { version = "0.3", default-features = false, features = ["fmt", "std", "env-filter"] }
uuid = { version = "1", features = ["v4"] }

[dev-dependencies]
bytes = "1"
