[package]
name = "sws"
version = "0.1.0"
edition = "2021"
publish = false

[dependencies]
anyhow = "1"
chrono = "0.4"
clap = { version = "3.2", features = ["derive"] }
clap_complete = "3.2"
crossbeam-channel = "0.5"
cssparser = "0.31"
csv = "1"
env_logger = "0.10"
flate2 = "1"
fs-err = "2"
futures = "0.3"
glob = "0.3"
html5ever = "0.26"
log = "0.4"
mlua = { version = "0.8", features = ["lua54", "vendored", "serialize"] }
num_cpus = "1"
once_cell = "1"
pin-project-lite = "0.2"
reqwest = { version = "0.11", default-features = false, features = ["gzip", "deflate", "blocking", "rustls-tls"] }
selectors = "0.25"
serde = { version = "1", features = ["derive"] }
slotmap = "1"
sxd-document = "0.3"
sxd-xpath = "0.4"
tendril = "0.4"
texting_robots = "0.2"
tokio = { version = "1", features = ["full"] }
tokio-stream = "0.1"
