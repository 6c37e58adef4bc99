[package]
name = "dockertags"
version = "0.1.0"
edition = "2021"
publish = false

[dependencies]
anyhow = "1"
chrono = "0.4"
ratatui = { version = "0.29", default-features = false, features = ["termion"] }
regex = "1"
reqwest = { version = "0.12", default-features = false, features = ["json", "rustls-tls"] }
serde = { version = "1", features = ["derive"] }
serde_json = "1"
structopt = "0.3"
termion = "4"
thiserror = "1"
tokio = { version = "1", features = ["rt-multi-thread", "macros"] }
