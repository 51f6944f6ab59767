[package]
name = "dictate"
version = "0.1.0"
edition = "2021"
publish = false

[dependencies]
rustix = { version = "=1.1.6", features = ["time", "event", "fs", "process", "pipe", "net", "std"] }
wayland-client = "=0.31.15"
wayland-protocols-misc = { version = "=0.3.12", features = ["client"] }
wl-clipboard-rs = "=0.9.5"
serde = { version = "=1.0.229", features = ["derive"] }
serde_json = "=1.0.154"
toml = "=0.8.23"
clap = { version = "=4.6.7", features = ["derive"] }
anyhow = "=1.0.104"
thiserror = "=2.0.21"
directories = "=6.0.0"
ureq = "=2.12.1"
bzip2 = "=0.4.4"
tar = "=0.4.46"
hound = "=3.5.1"
cpal = "*"
sherpa-onnx = "*"
rtrb = "*"
rustfft = "*"
