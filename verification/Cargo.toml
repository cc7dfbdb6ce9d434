[package]
name = "ex_vl_convert"
version = "0.1.0"
edition = "2021"
publish = false

[dependencies]
futures = { version = "0.3", default-features = false, features = ["std", "executor"] }
rustler = "*"
serde_json = "1"
