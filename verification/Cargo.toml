[package]
name = "lasangnabot"
version = "0.1.0"
edition = "2021"
publish = false

[dependencies]
rand = "=0.8.8"
url = "=2.5.8"
serenity = { version = "=0.10.10", features = ["voice", "cache", "framework", "standard_framework", "rustls_backend", "collector", "unstable_discord_api"] }
songbird = "=0.2.2"
rs621 = "=0.6.0"
dotenv = "=0.15.0"
tracing-subscriber = "=0.3.23"
tokio = { version = "=1.54.1", features = ["macros", "rt-multi-thread", "signal", "fs"] }
