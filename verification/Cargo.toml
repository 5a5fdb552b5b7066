[package]
name = "xrp_rpc"
version = "0.1.0"
edition = "2021"
publish = false

[dependencies]
bigdecimal = "=0.4.11"
reqwest = { version = "*", default-features = false, features = ["blocking"] }
serde_json = { version = "=1.0.154", features = ["arbitrary_precision"] }
