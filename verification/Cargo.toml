[package]
name = "photopack"
version = "0.1.0"
edition = "2021"
publish = false

[dependencies]
zip = { version = "=8.6.0", default-features = false, features = ["deflate"] }
chrono = "=0.4.45"
uuid = { version = "=1.27.0", features = ["v4"] }
teloxide = "=0.17.0"
tokio = { version = "=1.53.2", features = ["rt-multi-thread", "macros", "fs"] }
reqwest = "=0.12.28"
futures = "=0.3.34"
takecell = "=0.1.1"
