[package]
name = "session_counter"
version = "0.1.0"
edition = "2021"
publish = false

[dependencies]
futures-util = "*"
poem = { version = "*", features = ["session", "sse", "static-files"] }
tokio = { version = "*", features = ["macros", "rt-multi-thread", "time"] }
tokio-stream = { version = "*", features = ["time"] }
