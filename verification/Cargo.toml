[package]
name = "rtnetlink"
version = "0.1.0"
edition = "2021"
publish = false

[dependencies]
anyhow = "*"
futures = "*"
log = "*"
netlink-packet-core = "*"
netlink-packet-route = "*"
netlink-packet-utils = "*"
netlink-sys = { version = "*", features = ["tokio_socket"] }
nix = { version = "*", features = ["fs", "mount", "process", "sched", "signal", "user"] }
tokio = { version = "*", features = ["rt", "rt-multi-thread"] }
