[package]
name = "lakeapi2sql"
version = "0.1.0"
edition = "2021"
publish = false

[dependencies]
rust_decimal = "=1.43.0"
half = "=2.7.1"
arrow = { version = "=60.0.0", default-features = false, features = ["ipc"] }
tiberius = { version = "=0.13.0", default-features = false, features = ["tds73", "rustls", "sql-browser-tokio"] }
tokio = { version = "=1.53.2", features = ["rt-multi-thread", "sync", "net", "io-util", "time"] }
tokio-util = { version = "=0.7.19", features = ["compat", "io", "io-util"] }
futures = "=0.3.34"
reqwest = { version = "=0.13.5", default-features = false, features = ["stream"] }
log = "=0.4.34"

[dev-dependencies]
time = "=0.3.55"
