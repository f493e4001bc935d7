[package]
name = "libsql_js"
version = "0.1.0"
edition = "2021"
publish = false

[dependencies]
libsql = "*"
napi = { version = "*", default-features = false, features = ["napi6", "tokio_rt"] }
napi-derive = "*"
once_cell = "*"
serde_json = "*"
tokio = { version = "*", features = ["rt-multi-thread", "sync"] }
tracing = "*"
tracing-subscriber = { version = "*", features = ["env-filter"] }
