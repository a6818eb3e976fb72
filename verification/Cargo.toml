[package]
name = "twitter_tui"
version = "0.1.0"
edition = "2021"
publish = false

[dependencies]
chrono = "=0.4.45"
color-eyre = "=0.6.5"
crossterm = "=0.29.0"
dotenvy = "=0.15.7"
oauth2 = "=5.0.0"
ratatui = "=0.30.2"
reqwest = { version = "=0.12.28", default-features = false, features = ["rustls-tls"] }
serde = { version = "=1.0.229", features = ["derive"] }
serde_json = "=1.0.154"
thiserror = "=2.0.21"
tiny_http = "=0.12.0"
tokio = { version = "=1.54.1", features = ["macros", "rt-multi-thread", "sync", "time"] }
tracing = "=0.1.44"
tracing-subscriber = "=0.3.23"
tui-input = { version = "=0.14.0", default-features = false, features = ["crossterm"] }
url = "=2.5.8"
webbrowser = "=1.2.6"
