[package]
name = "aegis-input"
version = "0.1.0"
edition = "2021"
publish = false

[dependencies]
anyhow = "1"
async-trait = "0.1"
chrono = "0.4"
clap = { version = "4", features = ["derive"] }
evdev = "0.12"
libc = "0.2"
serde = { version = "1", features = ["derive"] }
thiserror = "1"
tokio = { version = "1", features = ["rt-multi-thread", "macros", "signal", "time", "sync"] }
toml = "0.8"
tracing = "0.1"
tracing-subscriber = "0.3"
udev = "0.8"
which = "6"

[dev-dependencies]
tempfile = "3"
