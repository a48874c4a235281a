[package]
name = "gert"
version = "1.0.0"
edition = "2021"
publish = false

[dependencies]
anyhow = "1"
clap = "2"
dotenv = "0.15"
env_logger = "0.9"
futures = "0.3"
log = "0.4"
md5 = "0.7"
mime = "0.3"
regex = "1"
reqwest = { version = "0.11", features = ["json", "cookies"] }
serde = { version = "1", features = ["derive"] }
serde_json = "1"
thiserror = "1"
tokio = { version = "1", features = ["full"] }
url = "2"
which = "4"
xml-rs = "0.8"
zip = "0.6"
