[package]
name = "rss_extract"
version = "0.1.0"
edition = "2021"
publish = false

[dependencies]
memchr = "*"
scraper = "*"
clap = { version = "*", features = ["derive"] }
comfy-table = "*"
thiserror = "*"
tokio = { version = "*", features = ["rt-multi-thread", "macros", "sync"] }
reqwest = { version = "*", default-features = false }
futures = "*"
