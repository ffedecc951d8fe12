[package]
name = "malai"
version = "0.1.0"
edition = "2021"
publish = false

[dependencies]
clap = { version = "=4.6.7", features = ["derive", "env"] }
data-encoding = "=2.11.1"
eyre = "=0.6.14"
fastn-id52 = "=0.1.2"
iroh = { version = "=1.4.1", default-features = false, features = ["tls-ring"] }
serde = { version = "=1.0.229", features = ["derive"] }
serde_json = "=1.0.154"
tokio = { version = "=1.54.1", features = ["rt-multi-thread", "macros", "sync", "time", "net", "io-util", "signal", "process", "fs"] }
tokio-util = { version = "=0.7.20", features = ["rt"] }
toml = "=0.9.12"
tracing = "=0.1.44"

[dev-dependencies]
tempfile = "=3.27.0"
