[package]
name = "dstack_backend"
version = "0.1.0"
edition = "2021"
publish = false

[dependencies]
alloy = { version = "*", default-features = false }
axum = "*"
http-body-util = "*"
hyper = "*"
hyper-util = { version = "*", features = ["client-legacy", "http1", "tokio"] }
hyperlocal = "*"
local-ip-address = "*"
nostr-sdk = "*"
reqwest = { version = "*", default-features = false }
serde = { version = "*", features = ["derive"] }
serde_json = "*"
tokio = { version = "*", features = ["macros", "net", "rt-multi-thread", "time"] }
tower-http = { version = "*", features = ["cors"] }
tracing = "*"
tracing-subscriber = { version = "*", features = ["env-filter"] }
