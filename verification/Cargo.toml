[package]
name = "weight_sync"
version = "0.1.0"
edition = "2021"
publish = false

[dependencies]
chrono = "0.4"
clap = { version = "4", features = ["derive"] }
colored_json = "*"
miette = "*"
simple_logger = "*"
strava-client-rs = "*"
thiserror = "*"
withings-rs = "*"
