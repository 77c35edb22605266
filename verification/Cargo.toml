[package]
name = "video_relay"
version = "0.1.0"
edition = "2021"
publish = false

[dependencies]
rustube = "=0.6.0"
url = "=2.5.8"
teloxide = "=0.17.0"
tokio = { version = "=1.54.1", features = ["rt-multi-thread", "macros"] }
dotenv = "=0.15.0"
log = "=0.4.34"
pretty_env_logger = "=0.5.0"
takecell = "=0.1.1"
