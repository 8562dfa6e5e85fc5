[package]
name = "aa_mirror"
version = "0.1.0"
edition = "2021"
publish = false

[dependencies]
anyhow = "1"
backon = "1"
bluer = { version = "0.17", features = ["bluetoothd", "rfcomm"] }
bytes = "1"
bytesize = "1"
clap = { version = "4", features = ["derive"] }
futures = "0.3"
humantime = "2"
libc = "0.2"
log = "0.4"
mac_address = "1"
netif = "0.1"
openssl = "0.10"
postcard = { version = "1", features = ["use-std"] }
protobuf = "3"
simplelog = "0.12"
tokio = { version = "1", features = ["full"] }
tokio-uring = "0.5"
tokio-util = "0.7"
