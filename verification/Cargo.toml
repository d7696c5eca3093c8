[package]
name = "moralis_gateway"
version = "0.1.0"
edition = "2021"
publish = false

[dependencies]
actix-cors = "0.6"
actix-web = { version = "4", default-features = false, features = ["macros", "compress-gzip"] }
awc = { version = "3", default-features = false, features = ["compress-gzip", "rustls"] }
dotenv = "0.15"
env_logger = "0.10"
log = "0.4"
serde = { version = "1", features = ["derive"] }
serde_json = "1"
snailquote = "0.3"
structopt = "0.3"
url = "2"
