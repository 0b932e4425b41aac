[package]
name = "ogage"
version = "0.1.0"
edition = "2021"
publish = false

[dependencies]
props-rs = "=0.1.1"

[dependencies.mio]
version = "=1.2.4"
features = ["os-poll", "os-ext"]
