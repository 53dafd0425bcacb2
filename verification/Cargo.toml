[package]
name = "amogus_bot"
version = "0.1.0"
edition = "2021"
publish = false

[dependencies]
dotenv = "=0.15.0"
hentai = "=0.2.3"
html-escape = "=0.2.15"
log = "=0.4.35"
m3u8-rs = "=1.0.8"
once_cell = "=1.21.4"
pretty_env_logger = "0.4"
rand = "=0.8.8"
regex = "=1.13.1"
reqwest = { version = "=0.11.27", features = ["json"] }
roux = "=1.4.0"
rustube = "=0.6.0"
serde = { version = "=1.0.229", features = ["derive"] }
serde_json = "=1.0.154"
teloxide = { version = "=0.5.3", features = ["macros", "auto-send"] }
tokio = { version = "=1.54.1", features = ["full"] }
tokio-util = { version = "=0.6.10", features = ["codec"] }
url-escape = "=0.1.2"
