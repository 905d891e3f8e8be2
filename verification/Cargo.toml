[package]
name = "capnp_study"
version = "0.1.0"
edition = "2021"
publish = false

[dependencies]
capnp = "0.18"
capnp-rpc = "0.18"
env_logger = "0.10"
futures = "0.3"
log = "0.4"
structopt = "0.3"
tokio = { version = "1", features = ["net", "rt", "macros"] }
tokio-util = { version = "0.7", features = ["compat"] }
