[package]
name = "grapple_hook"
version = "0.1.0"
edition = "2021"
publish = false

[dependencies]
anyhow = "*"
bytes = "*"
chrono = "*"
futures = "*"
grapple-frc-msgs = "*"
log = "*"
network-interface = "*"
regex = "*"
reqwest = { version = "*", default-features = false, features = ["json"] }
semver = "*"
serde = { version = "*", features = ["derive"] }
serde_json = "*"
ssh2 = "*"
tokio = { version = "*", features = ["rt-multi-thread", "sync", "time", "net", "macros", "io-util"] }
tokio-serial = "*"
tokio-util = { version = "*", features = ["codec"] }
uuid = { version = "*", features = ["v4"] }
zip = { version = "*", default-features = false, features = ["deflate"] }
