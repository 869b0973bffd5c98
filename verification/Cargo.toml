[package]
name = "assist_rs"
version = "0.1.0"
edition = "2021"
publish = false

[dependencies]
md5 = "0.7"
flate2 = "1"
serde = { version = "1", features = ["derive"] }
serde_json = "1"
thiserror = "2"
ureq = "3"
rayon = "1"
libc = "0.2"
