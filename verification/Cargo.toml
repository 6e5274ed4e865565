[package]
name = "cni_plugins"
version = "0.1.0"
edition = "2021"
publish = false

[dependencies]
anyhow = "1"
ipnetwork = "0.20"
iptables = "0.5"
log = "0.4"
macaddr = "1"
nix = { version = "0.27", features = ["fs"] }
rand = "0.8"
serde = { version = "1", features = ["derive"] }
serde_json = "1"
sha2 = "0.10"
simplelog = "0.12"
