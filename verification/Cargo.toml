[package]
name = "s3h"
version = "0.1.0"
edition = "2021"
publish = false

[dependencies]
regex = "=1.13.1"
serde_json = "=1.0.154"
uuid = { version = "=1.29.0", features = ["v4"] }
url = "=2.5.8"
rand = "=0.8.8"
structopt = "=0.3.26"
tokio = { version = "=1.54.1", features = ["macros", "rt-multi-thread", "time"] }
ctrlc = "=3.5.2"
colink = "0.3"
