[package]
name = "telemap"
version = "0.1.0"
edition = "2021"
publish = false

[dependencies]
regex = "=1.13.1"
md5 = "=0.8.1"
pickledb = "=0.5.1"
strfmt = "=0.2.6"
serde = { version = "=1.0.229", features = ["derive"] }
serde_json = "=1.0.151"
rust-tdlib = "=0.4.3"
tokio = { version = "=1.53.2", features = ["rt-multi-thread", "macros", "sync"] }
async-openai = { version = "=0.42.1", features = ["chat-completion"] }
argh = "=0.1.19"
dotenv = "=0.15.0"
env_logger = "=0.11.11"
colored = "=3.1.1"
rpassword = "=7.5.4"
