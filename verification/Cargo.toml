[package]
name = "txdecode"
version = "0.1.0"
edition = "2021"
publish = false

[dependencies]
alloy = { version = "1", default-features = false, features = ["std", "dyn-abi", "json-abi"] }
alloy-json-abi = { version = "1", features = ["serde_json"] }
clap = { version = "4", default-features = false, features = ["std", "help", "usage", "error-context", "derive", "env"] }
comfy-table = "7"
eyre = "0.6"
reqwest = { version = "0.12", default-features = false, features = ["json", "rustls-tls"] }
serde = { version = "1", features = ["derive"] }
serde_json = "1"
tokio = { version = "1", features = ["macros", "rt"] }
