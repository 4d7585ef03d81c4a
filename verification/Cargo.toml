[package]
name = "datetime_format"
version = "0.1.0"
edition = "2021"
publish = false

[dependencies]
time = { version = "0.3", features = ["formatting", "parsing"] }
time-fmt = "*"
serde = { version = "1", features = ["derive"] }
serde_json = "1"
serde_qs = "*"
warp = "0.3"
hyper = "0.14"
futures = "0.3"
thiserror = "1"
mime_guess = "2"
