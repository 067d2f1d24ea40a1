[package]
name = "rsvr"
version = "0.1.0"
edition = "2021"
publish = false

[dependencies]
url = "=2.5.8"
reqwest = { version = "=0.13.5", default-features = false, features = ["json", "rustls", "stream"] }
reqwest-middleware = "=0.5.2"
reqwest-retry = "=0.9.1"
reqwest-tracing = "=0.7.1"
strfmt = "=0.2.6"
lzzzz = "=2.0.0"
indicatif = "=0.18.6"
serde = { version = "=1.0.229", features = ["derive"] }
serde_json = "=1.0.154"
serde_yaml = "=0.9.34"
tokio = { version = "=1.54.1", features = ["rt", "macros", "fs", "io-util", "sync", "time"] }
futures-util = "=0.3.34"
thiserror = "=2.0.21"
log = "=0.4.35"
chrono = "=0.4.45"
clap = { version = "=4.6.7", features = ["derive"] }
fern = "=0.7.1"
ignore = "=0.4.34"
lazy_static = "=1.5.1"
md5 = "=0.8.1"
tar = "=0.4.46"
tempfile = "=3.27.0"
aws-config = "=1.13.0"
aws-sdk-s3 = "=1.157.0"
powershell_script = "=1.1.0"
