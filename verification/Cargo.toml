[package]
name = "hidpp"
version = "0.1.0"
edition = "2021"
publish = false

[dependencies]
hidreport = "=0.6.0"
rand = "=0.9.5"
async-channel = "=2.5.0"
async-trait = "=0.1.92"
futures = "=0.3.34"
futures-lite = "=2.6.1"
thiserror = "=2.0.21"
serde = { version = "=1.0.229", features = ["derive"] }
serde_json = "=1.0.154"
anyhow = "=1.0.104"
tokio = { version = "=1.54.1", features = ["macros", "rt-multi-thread", "sync"] }
clap = { version = "=4.6.7", features = ["derive"] }
colorchoice-clap = "=1.0.8"
anstream = "=1.0.0"
owo-colors = "=4.4.0"
itertools = "=0.15.0"
async-hid = "=0.5.3"
