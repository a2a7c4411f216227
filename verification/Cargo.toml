[package]
name = "oas"
version = "0.1.0"
edition = "2021"
publish = false

[dependencies]
async-stream = "0.3"
async-trait = "=0.1.92"
clap = { version = "=4.6.7", features = ["derive", "env"] }
containerd-shim = { version = "=0.12.0", features = ["async"] }
containerd-shim-protos = { version = "=0.12.0", features = ["async", "sandbox"] }
libc = "=0.2.191"
nix = { version = "=0.31.3", features = ["fs", "process", "signal"] }
prost = "0.14"
protobuf = "=3.7.2"
redb = "=3.1.3"
serde = { version = "=1.0.229", features = ["derive"] }
serde_json = "=1.0.154"
tokio = { version = "=1.54.1", features = ["full"] }
toml = "=1.1.8"
tonic = "=0.14.9"
tonic-prost = "0.14"
tracing = "=0.1.44"
tracing-appender = "=0.2.5"
tracing-subscriber = { version = "=0.3.23", features = ["env-filter"] }
ttrpc = { version = "=0.10.0", features = ["async"] }
