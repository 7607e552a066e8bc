[package]
name = "video_pipeline"
version = "0.1.0"
edition = "2021"
publish = false

[dependencies]
anyhow = "1"
async-trait = "0.1"
clap = { version = "4", features = ["derive", "env"] }
glib = "0.20"
gstreamer = "0.23"
gstreamer-rtsp-server = "0.23"
lazy_static = "1"
prometheus = "0.13"
serde = { version = "1", features = ["derive"] }
thiserror = "1"
tokio = { version = "1", features = ["full"] }
tracing = "0.1"
tracing-subscriber = { version = "0.3", features = ["env-filter"] }
uuid = { version = "1", features = ["v4"] }
warp = "0.3"

[dev-dependencies]
tempfile = "3"
