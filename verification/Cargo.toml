[package]
name = "rewrk-core"
version = "0.1.0"
edition = "2021"
publish = false

[dependencies]
anyhow = "=1.0.104"
async-trait = "=0.1.92"
clap = "2.33"
colored = "2"
exponential-backoff = "=1.2.1"
flume = "=0.10.14"
futures-util = "=0.3.34"
http = "=0.2.12"
hyper = { version = "=0.14.32", features = ["client", "http1", "http2", "runtime", "stream"] }
native-tls = { version = "=0.2.18", features = ["alpn"] }
num_cpus = "=1.17.0"
serde_json = "1"
tokio = { version = "=1.54.1", features = ["rt", "rt-multi-thread", "net", "time", "sync", "macros"] }
tokio-native-tls = "=0.3.1"
tracing = "=0.1.44"
