[package]
name = "lancedb_bridge"
version = "0.1.0"
edition = "2021"
publish = false

[dependencies]
async-trait = "0.1"
env_logger = "0.10"
neon = { version = "0.10", default-features = false, features = ["channel-api", "napi-6", "promise-api", "task-api"] }
object_store = { version = "0.9", features = ["aws"] }
once_cell = "1"
pyo3 = { version = "0.20", features = ["extension-module"] }
pyo3-asyncio = { version = "0.20", features = ["tokio-runtime"] }
tokio = { version = "1", features = ["rt-multi-thread", "sync", "time"] }
