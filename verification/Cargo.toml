[package]
name = "greengrass_ipc"
version = "0.1.0"
edition = "2021"
publish = false

[dependencies]
aws-smithy-eventstream = "*"
aws-smithy-types = "*"
base64 = "0.22"
bytes = "1"
futures-core = "0.3"
serde = { version = "1", features = ["derive"] }
serde_json = "1"
thiserror = "*"
tokio = { version = "1", features = ["net", "io-util", "sync", "rt", "macros"] }
tracing = "0.1"
