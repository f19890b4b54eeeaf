[package]
name = "dora-node-api-c"
version = "0.1.0"
edition = "2021"
publish = false

[dependencies]
arrow-array = "=52.2.0"
arrow-buffer = "=52.2.0"
arrow-schema = "=52.2.0"
dora-core = "=0.3.4"
eyre = "0.6"
tracing = "0.1"
bat = { version = "=0.26.1", default-features = false, features = ["regex-fancy", "paging"] }
serde_json = "1"
uuid = "1"
