[package]
name = "telepirate"
version = "0.1.0"
edition = "2021"
publish = false

[dependencies]
uuid = { version = "=1.29.0", features = ["v4", "serde"] }
url = { version = "=2.5.8", features = ["serde"] }
tokio-util = "=0.7.20"
humantime = "=2.4.0"
tokio = { version = "=1.54.1", features = ["full"] }
serde = { version = "1", features = ["derive"] }
serde_json = "1"
serde_type_name = "=0.2.0"
glob = "=0.3.4"
walkdir = "=2.5.0"
log = "0.4"
tracing = "0.1"
tracing-subscriber = { version = "0.3", features = ["env-filter"] }
ctrlc = "3"
lazy_static = "1"
teloxide = { version = "=0.17.0", features = ["macros"] }
surrealdb = { version = "=3.3.4", default-features = false, features = ["protocol-ws"] }
takecell = "<0.1.2"
