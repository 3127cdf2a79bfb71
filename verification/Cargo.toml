[package]
name = "live_player"
version = "0.1.0"
edition = "2021"
publish = false

[dependencies]
uuid = { version = "=1.29.0", features = ["v4"] }
serde = { version = "=1.0.229", features = ["derive"] }
serde_json = "=1.0.154"
thiserror = "=2.0.21"
tracing = "=0.1.44"
tracing-subscriber = { version = "=0.3.23", features = ["env-filter"] }
parking_lot = "=0.12.5"
raw-window-handle = "=0.6.2"
gstreamer = "=0.25.4"
gstreamer-app = "=0.25.2"
gstreamer-video = "=0.25.4"
grafton-ndi = "=2.0.0"
objc2 = "=0.6.5"
objc2-foundation = "=0.3.2"
kstring = ">=2.0.0, <=2.0.2"
