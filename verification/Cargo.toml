[package]
name = "axolotl"
version = "0.1.0"
edition = "2021"
publish = false

[dependencies]
age = "=0.10.1"
base64 = "=0.22.1"
clap = { version = "=4.6.7", default-features = false, features = ["derive", "std", "help", "usage", "error-context"] }
dirs = "=5.0.1"
inquire = { version = "=0.7.5", features = ["editor"] }
lazy_static = "=1.5.1"
log = "=0.4.34"
modrinth-api = "=2.7.1"
octocrab = "=0.47.1"
pretty_env_logger = "=0.5.0"
reqwest = { version = "=0.12.28", default-features = false, features = ["json", "multipart", "stream"] }
serde = { version = "=1.0.229", features = ["derive"] }
serde_json = "=1.0.154"
thiserror = "=1.0.69"
tokio = { version = "=1.54.1", features = ["macros", "rt-multi-thread", "fs"] }
tokio-util = { version = "=0.7.20", features = ["codec"] }
toml = "=0.8.23"
