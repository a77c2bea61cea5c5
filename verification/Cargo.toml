[package]
name = "grabber"
version = "0.1.0"
edition = "2021"
publish = false

[dependencies]
anyhow = "1"
async-channel = "*"
async-trait = "0.1"
chrono = "0.4"
clap = { version = "*", features = ["derive"] }
crossbeam-channel = "*"
fern = "*"
log = "0.4"
reqwest = { version = "*", default-features = false, features = ["json"] }
scraper = "*"
serde = { version = "1", features = ["derive"] }
serde_json = "1"
thiserror = "*"
tokio = { version = "1", features = ["macros", "rt-multi-thread", "time"] }
toml = "*"
url = "2"
