[package]
name = "i3ipc_client"
version = "0.1.0"
edition = "2021"
publish = false

[dependencies]
serde = "1"
serde_json = "1"
i3ipc-types = "*"
bytes = "0.4"
futures = "0.1"
tokio = "0.1"
tokio-io = "0.1"
tokio-reactor = "0.1"
tokio-uds = "0.2"
