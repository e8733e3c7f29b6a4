[package]
name = "wl-clip-persist"
version = "0.1.0"
edition = "2021"
publish = false

[dependencies]
chrono = "=0.4.45"
clap = { version = "=4.6.7", features = ["derive", "cargo"] }
env_logger = "=0.11.11"
fancy-regex = "=0.20.0"
libc = "=0.2.191"
log = "=0.4.35"
tokio = { version = "=1.54.1", features = ["rt-multi-thread", "macros", "signal", "time", "sync"] }
tokio-util = { version = "=0.7.20", features = ["rt"] }
wayrs-client = "=1.3.1"
wayrs-protocols = { version = "=0.14.11", features = ["ext-data-control-v1", "wlr-data-control-unstable-v1"] }
zeroize = "=1.9.1"
