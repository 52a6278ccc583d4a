[package]
name = "datafusion_bridge"
version = "0.1.0"
edition = "2021"
publish = false

[dependencies]
arrow-array = { version = "=56.2.1", features = ["ffi"] }
arrow-schema = { version = "=56.2.1", features = ["ffi"] }
dashmap = "=6.2.1"
datafusion = { version = "=50.3.0", default-features = false }
futures = "=0.3.34"
jni = "=0.21.1"
log = "0.4"
mimalloc = { version = "=0.1.52", default-features = false }
object_store = { version = "=0.12.5", default-features = false }
once_cell = "=1.21.4"
tokio = { version = "=1.54.1", features = ["macros", "rt", "rt-multi-thread", "sync", "time"] }
tokio-metrics = { version = "=0.4.9", default-features = false, features = ["rt"] }
tokio-stream = "=0.1.19"
tokio-util = "=0.7.20"
