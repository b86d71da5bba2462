[package]
name = "nvm_rust"
version = "0.1.0"
edition = "2021"
publish = false

[dependencies]
anyhow = "1"
clap = { version = "4", features = ["derive", "env"] }
dialoguer = "0.11"
dirs = "5"
flate2 = "1"
itertools = "0.10"
node-semver = "2.1.0"
reqwest = { version = "0.11", default-features = false, features = ["blocking", "rustls-tls"] }
semver = "1"
serde = { version = "1", features = ["derive"] }
serde_json = "1"
tar = "0.4"
ureq = { version = "2", features = ["json"] }
zip = { version = "0.6", default-features = false, features = ["deflate"] }
