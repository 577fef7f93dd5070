[package]
name = "iroh_mux"
version = "0.1.0"
edition = "2021"
publish = false

[dependencies]
anyhow = "1"
base64 = "0.22"
bytes = "1"
iroh = "*"
tokio = { version = "1", features = ["rt-multi-thread", "sync", "io-util", "macros", "time"] }
