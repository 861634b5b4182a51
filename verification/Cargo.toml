[package]
name = "segment_ingress"
version = "0.1.0"
edition = "2021"
publish = false

[dependencies]
async-trait = "0.1"
brotli = "*"
bytes = "1"
flate2 = "1"
quickwit-actors = "*"
quickwit-metastore = "*"
tokio = { version = "1", features = ["time"] }
warp = "0.3"
zstd = "*"
