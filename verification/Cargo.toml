[package]
name = "portfolio_scan"
version = "0.1.0"
edition = "2021"
publish = false

[dependencies]
serde_json = "1"
jql = "5"
governor = "0.6"
rand = "0.8"
piechart = "1"
nonzero_ext = "0.3"
async-trait = "0.1"
clap = { version = "4", features = ["derive"] }
config = { version = "0.13", default-features = false, features = ["toml"] }
indicatif = "0.17"
prettytable-rs = "0.10"
reqwest = "0.11"
tokio = { version = "1", features = ["macros", "rt-multi-thread"] }
web3 = { version = "0.19", default-features = false, features = ["http-tls"] }
