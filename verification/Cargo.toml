[package]
name = "learner"
version = "0.1.0"
edition = "2021"
publish = false

[dependencies]
url = "*"
chrono = { version = "*", features = ["serde"] }
reqwest = { version = "*", default-features = false, features = ["json"] }
tokio = { version = "*", features = ["macros", "rt-multi-thread"] }
serde = { version = "*", features = ["derive"] }
serde_json = "*"
quick-xml = { version = "*", features = ["serialize"] }
rusqlite = { version = "*", features = ["bundled"] }
clap = { version = "*", features = ["derive"] }
thiserror = "*"
dirs = "*"
daemonize = "*"
nix = { version = "*", features = ["signal"] }
tracing = "*"
tracing-subscriber = { version = "*", features = ["env-filter"] }
tracing-appender = "*"
dialoguer = "*"
console = "*"
glob = "*"
