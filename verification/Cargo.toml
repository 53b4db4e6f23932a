[package]
name = "fcsgen_core"
version = "0.1.0"
edition = "2021"
publish = false

[dependencies]
dashmap = "=6.2.1"
clap = { version = "=4.6.7", features = ["derive"] }
rayon = "=1.12.0"
serde_json = { version = "=1.0.154", features = ["preserve_order"] }
wt_blk = "*"
