[package]
name = "storyboard"
version = "0.1.0"
edition = "2021"
publish = false

[dependencies]
dirs = "=7.0.0"
log = "=0.4.34"
rfd = { version = "=0.16.1", default-features = false, features = ["xdg-portal", "tokio"] }
rusqlite = { version = "=0.41.0", features = ["bundled"] }
serde = { version = "=1.0.229", features = ["derive"] }
serde_json = "=1.0.154"
ureq = "=2.12.1"
