[package]
name = "comtrya_lib"
version = "0.1.0"
edition = "2021"
publish = false

[dependencies]
anyhow = "1"
colored = "2"
paw = "1"
structopt = { version = "0.3", features = ["paw"] }
tracing = "0.1"
tracing-subscriber = "0.3"
update-informer = "0.5"
whoami = "1"
