[package]
name = "hope_scheme"
version = "0.1.0"
edition = "2021"
publish = false

[dependencies]
rabe-bn = "=0.4.23"
paillier = { version = "=0.2.0", default-features = false, features = ["usegmp", "keygen"] }
bincode = "=1.3.3"
mongodb = "=0.3.10"
bson = "=0.12.3"
rand = "=0.8.8"
serde = { version = "=1.0.229", features = ["derive"] }
serde_json = "=1.0.154"
actix = "=0.13.5"
actix-web = "=4.18.1"
actix-files = "=0.7.3"
actix-web-actors = "=4.3.1"
actix-rt = "=2.15.0"
env_logger = "=0.11.11"
