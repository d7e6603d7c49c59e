[package]
name = "tweets_consumer"
version = "0.1.0"
edition = "2021"
publish = false

[dependencies]
redis = "*"
twitter-stream = "*"
tokio = { version = "*", features = ["macros", "rt-multi-thread"] }
futures = "*"
serde_json = "*"
