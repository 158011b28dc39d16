[package]
name = "scadm_core"
version = "0.1.0"
edition = "2021"
publish = false

[dependencies]
semver = "=1.0.28"
serde = { version = "=1.0.229", features = ["derive"] }
serde_yaml = "=0.9.34+deprecated"
bincode = "=1.3.3"
tokio = { version = "=1.54.1", features = ["full"] }
reqwest = { version = "=0.11.27", default-features = false, features = ["rustls-tls", "stream"] }
futures = "=0.3.34"
async-compression = { version = "=0.4.52", features = ["futures-io", "gzip"] }
async-tar = { version = "=0.4.2", default-features = false }
bytes = "1"
libc = "0.2"
nix = { version = "=0.26.4", default-features = false, features = ["signal", "process"] }
home = "=0.5.12"
daemonize = "=0.5.0"
clap = { version = "=3.2.25", features = ["cargo"] }
indoc = "=2.0.8"
lazy_static = "1"
