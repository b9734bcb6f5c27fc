[package]
name = "wallout"
version = "0.1.0"
edition = "2021"
publish = false

[dependencies]
async-stream = "0.3"
base64 = "0.13"
config = "0.13"
dns-lookup = "1"
futures = "0.3"
headers = "0.3"
http = "0.2"
httparse = "1"
hyper = { version = "0.14", features = ["full"] }
lazy_static = "1"
log = "0.4"
log4rs = "1"
once_cell = "1"
rcgen = "0.9"
regex = "1"
rustls = "0.20"
rustls-pemfile = "1"
serde = { version = "1", features = ["derive"] }
serde_derive = "1"
serde_with = "1"
tokio = { version = "1", features = ["full"] }
tokio-rustls = "0.23"
unicase = "2"
webpki = "0.22"
webpki-roots = "0.22"
