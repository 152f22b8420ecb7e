[package]
name = "artifice"
version = "0.1.0"
edition = "2021"
publish = false

[dependencies]
smallvec = "1"
rand = "0.8"
regex = "1"
tokio = { version = "1", features = ["rt-multi-thread", "macros", "sync", "time"] }
poise = "0.6"
reqwest = "0.11"
ffmpeg-sidecar = "1"
ffprobe = "*"
image = { version = "0.24", default-features = false, features = ["png"] }
ab_glyph = "0.2"
glyph_brush_layout = "0.2"
rusttype = "0.9"
textwrap = "0.16"
tempfile = "3"
tracing = "0.1"
tracing-subscriber = { version = "0.3", features = ["env-filter"] }
dotenv = "0.15"
