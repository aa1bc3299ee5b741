[package]
name = "clack"
version = "0.1.0"
edition = "2021"
publish = false

[dependencies]
chrono = "=0.4.45"
regex = "=1.13.1"
serde = { version = "=1.0.229", features = ["derive"] }
serde_json = "=1.0.151"
toml = "=1.1.7"
tokio = { version = "=1.53.2", features = ["rt-multi-thread", "macros", "sync", "time"] }
reqwest = { version = "=0.13.5", default-features = false, features = ["form", "query"] }
warp = { version = "=0.4.3", features = ["server"] }
crossterm = "=0.29.0"
ratatui = "=0.30.2"
