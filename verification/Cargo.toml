[package]
name = "toot"
version = "0.1.0"
edition = "2021"
publish = false

[dependencies]
capitalize = "*"
dirs = "*"
futures-channel = "*"
futures-util = "*"
html2text = "*"
keytar = "*"
megalodon = "*"
open = "*"
reqwest = "*"
serde = { version = "1", features = ["derive"] }
serde_json = "1"
thiserror = "*"
tokio = { version = "1", features = ["rt-multi-thread"] }
tracing = "*"
