[package]
name = "rustychains"
version = "0.1.0"
edition = "2021"
publish = false

[dependencies]
anyhow = "1"
futures = "0.3"
shiplift = { version = "0.7", default-features = false, features = ["unix-socket"] }
tempdir = "0.3"
thiserror = "1"
tokio = { version = "1", features = ["macros", "rt-multi-thread", "time"] }
