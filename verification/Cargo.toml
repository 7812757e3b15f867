[package]
name = "glebus_vpn_bot"
version = "0.1.0"
edition = "2021"
publish = false

[dependencies]
serde_json = "=1.0.151"
teloxide = { version = "=0.17.0", features = ["macros"] }
tokio = { version = "=1.53.2", features = ["rt-multi-thread", "macros"] }
dptree = "=0.5.1"
log = "=0.4.34"
log4rs = "=1.4.0"
dotenv = "=0.15.0"
once_cell = "=1.21.4"
remnawave = "=2.2.4"
chrono = "=0.4.45"
thiserror = "=2.0.21"
reqwest = { version = "=0.12.28", features = ["json"] }
takecell = "=0.1.1"
