[package]
name = "btc-ark-swap"
version = "0.1.0"
edition = "2021"
publish = false

[dependencies]
anyhow = "=1.0.104"
ark-lib = "=0.8.0"
bark-bitcoin-ext = "=0.8.0"
bitcoin = { version = "=0.32.102", features = ["rand-std", "serde"] }
clap = { version = "=4.6.7", features = ["derive"] }
rand = "=0.8.8"
serde = { version = "=1.0.229", features = ["derive"] }
serde_json = "=1.0.154"
thiserror = "=2.0.21"
tokio = { version = "=1.54.1", features = ["fs", "macros", "rt-multi-thread", "signal", "time"] }

[dev-dependencies]
ark-lib = { version = "=0.8.0", features = ["test-util"] }
