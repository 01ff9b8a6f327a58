[package]
name = "vime"
version = "0.1.0"
edition = "2021"
publish = false

[dependencies]
config = "0.13"
env_logger = "*"
lazy_static = "1"
log = "0.4"
serde = { version = "1", features = ["derive"] }
xcb = { version = "1", features = ["randr"] }
xcb-imdkit = "*"
