[package]
name = "libsql_shim"
version = "0.1.0"
edition = "2021"
publish = false

[dependencies]
libsql = { version = "=0.9.30", default-features = false, features = ["core"] }
tokio = { version = "=1.53.2", features = ["rt-multi-thread", "sync"] }
once_cell = "=1.21.4"

[dev-dependencies]
serde_json = "=1.0.151"
