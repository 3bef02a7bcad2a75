[package]
name = "cs2_buttplug"
version = "0.1.0"
edition = "2021"
publish = false

[dependencies]
anyhow = "1"
buttplug = { version = "=7.1.16", default-features = false, features = ["client", "serialize-json", "websockets", "tokio-runtime"] }
csgo-gsi = "=0.3.0"
# What eframe draws with.
egui = "=0.27.2"
futures = "0.3"
log = "0.4"
pretty_env_logger = "0.5"
# A dependency of csgo-gsi on Windows, held to a release that needs no large bindings.
registry = "=1.2.3"
tokio = { version = "1", features = ["rt-multi-thread", "sync", "time"] }
tokio-stream = { version = "0.1", features = ["sync"] }
