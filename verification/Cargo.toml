[package]
name = "webshield"
version = "0.1.0"
edition = "2021"
publish = false

[dependencies]
anyhow = "1"
clap = { version = "4", features = ["derive", "env"] }
clap_complete = "4"
clap_complete_nushell = "4"
comfy-table = "7"
console = "0.15"
dirs = "5"
futures = "0.3"
hex = "0.4"
indicatif = "0.17"
md-5 = "0.10"
mime_guess = "2"
reqwest = { version = "0.12", features = ["json", "multipart"] }
rpassword = "7"
serde = { version = "1", features = ["derive"] }
serde_json = "1"
sys-locale = "0.3"
tokio = { version = "1", features = ["full"] }
toml = "0.8"
walkdir = "2"
