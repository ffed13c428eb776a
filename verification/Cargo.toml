[package]
name = "run_my_rust"
version = "0.1.0"
edition = "2021"
publish = false

[dependencies]
dotenv = "0.15"
futures = "0.3"
hyper = { version = "0.14", features = ["client", "http1", "http2", "tcp"] }
hyper-tls = "0.5"
once_cell = "1"
serde = { version = "1", features = ["derive"] }
serde_json = "1"
tokio = { version = "1", features = ["macros", "rt-multi-thread"] }
toml = "0.5"
tracing = "0.1"
tracing-subscriber = "0.3"
twilight-cache-inmemory = "0.11"
twilight-gateway = "0.11"
twilight-http = "0.11"
twilight-model = "0.11"
twilight-util = { version = "0.11", features = ["builder"] }
