[package]
name = "sentient-tui"
version = "0.1.0"
edition = "2021"
publish = false

[dependencies]
clap = { version = "*", features = ["derive", "cargo"] }
color-eyre = "*"
crossterm = { version = "*", features = ["event-stream"] }
directories = "*"
dotenvy = "*"
futures = "*"
image = { version = "*", default-features = false, features = ["png"] }
lazy_static = "*"
libc = "*"
ratatui = "*"
ratatui-image = { version = "*", default-features = false, features = ["crossterm"] }
reqwest = { version = "*", default-features = false, features = ["json", "rustls-tls"] }
serde = { version = "*", features = ["derive"] }
serde_json = "*"
signal-hook = "*"
strip-ansi-escapes = "*"
strum = { version = "*", features = ["derive"] }
tachyonfx = "*"
tokio = { version = "*", features = ["rt-multi-thread", "macros", "sync", "time"] }
tokio-tungstenite = { version = "*", features = ["rustls-tls-webpki-roots"] }
tokio-util = "*"
tracing = "*"
tracing-error = "*"
tracing-subscriber = { version = "*", features = ["env-filter"] }
