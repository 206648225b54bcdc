[package]
name = "plugins_core"
version = "0.1.0"
edition = "2021"
publish = false

[dependencies]
aho-corasick = "1"
bincode = "1"
data-url = "0.3"
futures-core = "0.3"
http = "1"
indexmap = { version = "2", features = ["serde"] }
reqwest = { version = "0.12", default-features = false }
serde = { version = "1", features = ["derive"] }
serde_json = "1"
sqlx = { version = "0.7", default-features = false, features = ["sqlite", "json", "migrate", "runtime-tokio"] }
thiserror = "1"
tokio = { version = "1", features = ["sync"] }
url = "2"
