[package]
name = "esbuild_client"
version = "0.1.0"
edition = "2021"
publish = false

[dependencies]
anyhow = "1"
async-trait = "0.1"
deno_unsync = "*"
derive_builder = "0.20"
indexmap = "2"
log = "0.4"
parking_lot = "0.12"
serde = { version = "1", features = ["derive"] }
tokio = { version = "1", features = ["io-util", "macros", "process", "rt", "sync"] }
