[package]
name = "purr_core"
version = "0.1.0"
edition = "2021"
publish = false

[dependencies]
ffmpeg-next = "*"
whisper-rs = "*"
tokio = { version = "1", features = ["rt", "rt-multi-thread", "sync", "macros", "time"] }
tokio-stream = "*"
futures = "0.3"
futures-util = "0.3"
directories = "*"
reqwest = { version = "*", default-features = false, features = ["rustls-tls", "stream"] }
serde = { version = "1", features = ["derive"] }
serde_json = "1"
thiserror = "*"

[dev-dependencies]
