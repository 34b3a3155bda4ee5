[package]
name = "cable"
version = "0.1.0"
edition = "2021"
publish = false

[dependencies]
ascii = "1"
chrono = "0.4"
clap = { version = "4", features = ["derive"] }
html-escape = "0.2"
notify-debouncer-mini = "0.4"
pulldown-cmark = "0.13"
serde = { version = "1", features = ["derive"] }
serde_yaml = "0.9"
tiny_http = "0.12"
toml = "0.8"
