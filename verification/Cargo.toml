[package]
name = "mcp_rs"
version = "0.1.0"
edition = "2021"
publish = false

[dependencies]
async-stream = "0.3"
async-trait = "0.1"
clap = { version = "4", features = ["derive"] }
config = { version = "0.14", default-features = false, features = ["json", "yaml"] }
futures = "0.3"
reqwest = { version = "0.12", default-features = false, features = ["json"] }
reqwest-eventsource = "0.6"
serde = { version = "1", features = ["derive"] }
serde_json = { version = "1", features = ["preserve_order"] }
tokio = { version = "1", features = ["full"] }
tracing = "0.1"
tracing-subscriber = { version = "0.3", features = ["env-filter"] }
url = "2"
warp = "0.3"
