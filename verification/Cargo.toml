[package]
name = "event_logger"
version = "0.1.0"
edition = "2021"
publish = false

[dependencies]
backoff = "0.4"
bytes = "1"
clap = "2"
dotenv = "0.15"
futures-util = "0.3"
http = "1"
once_cell = "1"
thiserror = "1"
tokio = { version = "1", features = ["macros", "rt-multi-thread", "signal", "time"] }
tonic = "0.12"
tracing = "0.1"
tracing-subscriber = { version = "0.3", features = ["env-filter"] }
