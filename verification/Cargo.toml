[package]
name = "web_refresh"
version = "0.1.0"
edition = "2021"
publish = false

[dependencies]
crossbeam-channel = "*"
env_logger = "*"
log = "*"
signal-hook = "*"
structopt = "*"
webdriver_client = "*"
