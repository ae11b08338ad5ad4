[package]
name = "pinepods_web"
version = "0.1.0"
edition = "2021"
publish = false

[dependencies]
anyhow = "=1.0.104"
base64 = "=0.23.1"
fluent = "=0.17.0"
fluent-bundle = "=0.16.0"
intl-memoizer = "=0.5.3"
unic-langid = "=0.9.6"
serde = { version = "=1.0.229", features = ["derive"] }
serde_json = "=1.0.154"
gloo-net = "=0.7.0"
web-sys = { version = "=0.3.107", features = ["Window", "Storage", "console"] }
yew = "=0.23.0"
yew-router = "=0.20.0"
yewdux = "=0.13.0"
parking_lot = "=0.13.0"
once_cell = "=1.21.4"
log = "=0.4.35"
