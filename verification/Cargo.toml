[package]
name = "sync_core"
version = "0.1.0"
edition = "2021"
publish = false

[dependencies]
zip = { version = "=8.6.0", default-features = false, features = ["deflate"] }
toml = "=1.1.7"
blake3 = "=1.8.7"
hex = "=0.4.3"
bs58 = "=0.5.1"
base64 = "=0.23.1"
ed25519-dalek = "=3.0.0"
age = "=0.12.1"
secrecy = "=0.10.3"
chrono = { version = "=0.4.45", default-features = false, features = ["std", "clock"] }
tempfile = "=3.27.0"
serde = { version = "=1.0.229", features = ["derive"] }
serde_json = "=1.0.151"
wasmtime = { version = "=48.0.5", default-features = false, features = ["std", "runtime", "cranelift"] }
reqwest = { version = "=0.13.5", default-features = false, features = ["blocking"] }
tokio = { version = "=1.53.2", features = ["rt-multi-thread", "net", "macros", "sync", "io-util", "time"] }
dav-server = "=0.11.0"
hyper = { version = "=1.12.0", features = ["server", "http1"] }
hyper-util = { version = "=0.1.21", features = ["tokio"] }
futures = "=0.3.34"
bytes = "=1.12.1"
