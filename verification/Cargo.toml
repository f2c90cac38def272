[package]
name = "bcp"
version = "0.1.0"
edition = "2021"
publish = false

[dependencies]
anyhow = "1"
clap = { version = "4", features = ["derive"] }
crossterm = "0.29"
dirs = "6"
futures-util = "0.3"
open = "5"
ratatui = { version = "0.30", default-features = false, features = ["crossterm"] }
reqwest = { version = "0.12", features = ["json", "stream"] }
rodio = "0.21"
serde = { version = "1", features = ["derive"] }
serde_json = "1"
symphonia = { version = "0.5", default-features = false, features = ["mp3"] }
tokio = { version = "1", features = ["full"] }
toml = "*"
zip = { version = "*", default-features = false, features = ["deflate"] }
