[package]
name = "rsshub_mcp"
version = "0.1.0"
edition = "2021"
publish = false

[dependencies]
rss = "=2.1.2"
serde_json = "=1.0.154"
serde = { version = "=1.0.229", features = ["derive"] }
reqwest = { version = "=0.13.5", default-features = false, features = ["json"] }
tokio = { version = "=1.54.1", features = ["macros", "rt-multi-thread", "time", "sync"] }
eyre = "=0.6.14"
clap = { version = "=4.6.7", features = ["derive"] }
tracing = "=0.1.44"
tracing-subscriber = { version = "=0.3.23", features = ["env-filter"] }
is-terminal = "=0.4.17"
async-trait = "=0.1.92"
config = "=0.15.27"
ultrafast-mcp = { version = "=202506018.1.0", features = ["http"] }

[dev-dependencies]
quick-xml = "=0.41.0"
