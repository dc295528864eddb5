[package]
name = "monoledger"
version = "0.1.0"
edition = "2021"
publish = false

[dependencies]
rand = "=0.10.3"
anyhow = "*"
gix = { version = "=0.88.0", features = ["blocking-network-client", "anyhow"] }
gix-hash = "=0.27.0"
gix-object = "=0.65.0"
gix-ref = "=0.68.0"
log = "*"
once_cell = "*"
