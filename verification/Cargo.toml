[package]
name = "vod2pod_rss"
version = "0.1.0"
edition = "2021"
publish = false

[dependencies]
url = "2"
regex = "1"
chrono = "0.4"
md5 = "0.7"
uuid = { version = "1", features = ["v4"] }
rss = "2"
feed-rs = "*"
serde = { version = "1", features = ["derive"] }
serde_json = "1"
iso8601-duration = "*"
scraper = "*"
eyre = "0.6"
actix-web = { version = "4", default-features = false, features = ["macros"] }
tokio = { version = "1", features = ["full"] }
reqwest = { version = "*", default-features = false, features = ["json", "rustls-tls"] }
redis = { version = "*", features = ["tokio-comp"] }
futures = "0.3"
async-trait = "0.1"
