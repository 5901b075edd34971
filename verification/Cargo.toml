[package]
name = "nju_cli"
version = "0.1.0"
edition = "2021"
publish = false

[dependencies]
aes = "0.8"
cbc = { version = "0.1", features = ["alloc"] }
base64 = "0.22"
rand = "0.9"
scraper = "*"
reqwest = { version = "0.12", default-features = false, features = ["json", "cookies", "rustls-tls"] }
reqwest-middleware = "0.4"
reqwest_cookie_store = "0.8"
cookie_store = { version = "0.21", features = ["serde", "serde_json"] }
percent-encoding = "2"
sanitize-filename = "*"
serde = { version = "1", features = ["derive"] }
serde_json = "1"
anyhow = "1"
clap = { version = "4", features = ["derive"] }
tracing = "0.1"
async-trait = "0.1"
http = "1"
platform-dirs = "0.3"
tokio = { version = "1", features = ["macros", "rt-multi-thread", "time", "process"] }
image = { version = "0.25", default-features = false, features = ["png", "jpeg"] }
ddddocr = "*"
rmcp = { version = "*", features = ["server", "transport-io", "macros"] }
schemars = "*"
