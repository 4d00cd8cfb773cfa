[package]
name = "immich_lib"
version = "0.1.0"
edition = "2021"
publish = false

[dependencies]
anyhow = "*"
chrono = "*"
clap = { version = "*", features = ["derive", "env"] }
directories = "*"
dotenvy = "*"
futures = "*"
image = { version = "*", default-features = false, features = ["jpeg", "png"] }
reqwest = { version = "*", default-features = false, features = ["json", "multipart", "stream"] }
serde = { version = "*", features = ["derive"] }
serde_json = "*"
tokio = { version = "*", features = ["rt-multi-thread", "macros", "fs", "io-util", "time"] }
toml = "*"
url = "*"
uuid = { version = "*", features = ["v4"] }
