[package]
name = "duckdbconn"
version = "0.1.0"
edition = "2021"
publish = false

[dependencies]
async-stream = "=0.3.6"
duckdb = { version = "=1.20000.0", default-features = false, features = ["r2d2", "vtab-arrow"] }
dyn-clone = "=1.0.20"
r2d2 = "=0.8.10"
rand = "=0.9.5"
snafu = "=0.8.9"
sqlparser = "=0.62.0"
tokio = { version = "=1.54.1", features = ["rt", "rt-multi-thread", "sync"] }
tracing = "=0.1.44"
