[package]
name = "minimald"
version = "0.1.0"
edition = "2021"
publish = false

[dependencies]
async-compression = { version = "0.4", features = ["tokio", "zstd"] }
async-tar = "*"
bytes = "1"
chrono = "0.4"
clap = { version = "4", features = ["derive"] }
clap_complete = "4"
fd-lock = "4"
futures = "0.3"
hakoniwa = { version = "*", default-features = false }
libc = "0.2"
nix = { version = "*", features = ["fs", "process", "sched", "signal"] }
russh = "*"
rustls = { version = "0.23", default-features = false, features = ["ring", "std"] }
serde = { version = "1", features = ["derive"] }
serde_json_lenient = "*"
sysinfo = "*"
thiserror = "2"
tokio = { version = "1", features = ["full"] }
tokio-util = { version = "0.7", features = ["full"] }
tokio-vsock = "*"
tracing = "0.1"
vt100-ctt = "*"
