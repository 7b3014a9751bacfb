[package]
name = "acme-azure-function"
version = "0.1.0"
edition = "2021"
publish = false

[dependencies]
anyhow = "1"
base64 = "0.22"
chrono = { version = "0.4", default-features = false, features = ["clock", "std"] }
form_urlencoded = "1"
futures-util = { version = "0.3", default-features = false, features = ["std"] }
hickory-resolver = { version = "0.24", default-features = false, features = ["tokio-runtime"] }
hmac = "0.12"
http = "1"
http-body-util = "0.1"
httparse = "1"
httpdate = "1"
hyper = { version = "1", features = ["client", "http1", "server"] }
hyper-rustls = { version = "0.27", default-features = false, features = ["http1", "ring", "webpki-roots"] }
hyper-util = { version = "0.1", features = ["client-legacy", "http1", "tokio"] }
log = { version = "0.4", features = ["std"] }
serde = { version = "1", features = ["derive"] }
serde_json = "1"
sha2 = "0.10"
time = { version = "0.3", default-features = false, features = ["formatting", "parsing", "std"] }
tokio = { version = "1", features = ["io-util", "net", "rt", "sync", "time"] }
x509-parser = "0.16"
