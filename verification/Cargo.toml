[package]
name = "becky"
version = "0.1.0"
edition = "2021"
publish = false

[dependencies]
async-trait = "=0.1.92"
bytesize = "=2.7.0"
futures = "=0.3.34"
libc = "=0.2.191"
qapi = { version = "=0.15.0", features = ["qmp", "qga", "async-tokio-all"] }
qemu-command-builder = "=11.1.0-1"
reqwest = { version = "=0.13.5", default-features = false }
serde = { version = "=1.0.229", features = ["derive"] }
serde_json = "=1.0.154"
sysinfo = "=0.40.1"
thiserror = "=2.0.21"
tokio = { version = "=1.54.1", features = ["full"] }
tracing = "=0.1.44"
uuid = { version = "=1.29.0", features = ["v4"] }
which = "=8.0.6"
clap = { version = "=4.6.7", features = ["derive"] }
bon = "=3.10.3"
regex = "=1.13.1"
wora = "=0.0.21"
