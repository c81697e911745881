[package]
name = "ec_control"
version = "0.1.0"
edition = "2021"
publish = false

[dependencies]
ads_client = "*"
clap = { version = "*", features = ["derive"] }
log = "*"
log4rs = "*"
regex = "*"
tokio = { version = "*", features = ["macros", "rt"] }
