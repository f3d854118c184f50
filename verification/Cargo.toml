[package]
name = "mirror_cache"
version = "0.1.0"
edition = "2021"
publish = false

[dependencies]
redis = { version = "=1.7.1", default-features = false, features = ["aio", "tokio-comp"] }
reqwest = { version = "=0.13.5", default-features = false }
tokio = { version = "=1.53.2", features = ["macros", "rt-multi-thread", "sync"] }
warp = { version = "=0.4.3", default-features = false, features = ["server"] }
