[package]
name = "napali"
version = "0.1.1"
edition = "2021"
publish = false

[dependencies]
chrono = "=0.4.45"
clap = { version = "4", features = ["derive"] }
color-eyre = "0.6"
config = { version = "0.13", default-features = false, features = ["toml", "json", "yaml", "ini", "json5"] }
console-subscriber = "0.2"
crossterm = { version = "0.29", features = ["event-stream"] }
dirs = "5"
email_address = "=0.2.9"
futures = "0.3"
itertools = "0.12"
log = "0.4"
mps = "1"
ratatui = { version = "0.30", default-features = false, features = ["crossterm"] }
regress = "=0.12.0"
reqwest = { version = "0.11", default-features = false, features = ["json", "rustls-tls"] }
ringbuffer = "=0.15.0"
serde = { version = "1", features = ["derive"] }
serde_json = "1"
signal-hook = "0.3"
tokio = { version = "=1.54.1", features = ["full"] }
tokio-util = "0.7"
tracing = "0.1"
tui-textarea = "0.4"
tui-tree-widget = "0.24"
url = "2"
