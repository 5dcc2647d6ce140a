[package]
name = "toolza_sender"
version = "0.1.0"
edition = "2021"
publish = false

[dependencies]
lz4_flex = "=0.11.6"
local-ip-address = "=0.6.13"
tokio = { version = "=1.54.1", features = ["net", "io-util", "rt-multi-thread", "time", "sync", "fs", "macros"] }
tar = "=0.4.46"
flate2 = "=1.1.10"
zip = { version = "=0.6.6", default-features = false, features = ["deflate"] }
tokio_kcp = "0.9"
quinn = "0.11"
rcgen = "0.13"
zstd = "0.13"
rustls = { version = "0.23", default-features = false, features = ["ring", "std"] }

[dev-dependencies]
bincode = "=1.3.3"
