[package]
name = "cape_wallet"
version = "0.1.0"
edition = "2021"
publish = false

[dependencies]
async-trait = "=0.1.92"
futures = { version = "0.3", default-features = false, features = ["std"] }
snafu = "=0.6.10"
