[package]
name = "rquest"
version = "0.1.0"
edition = "2021"
publish = false

[dependencies]
antidote = "=1.1.0"
arc-swap = "=1.9.3"
boring2 = "=4.15.15"
bytes = "=1.12.1"
cookie = "=0.18.2"
cookie_store = "=0.21.1"
futures-util = "=0.3.34"
# The HTTP layer of the asynchronous client: h2 names the causes of failed
# exchanges, http-body-util and hyper-util carry bodies and connections.
h2 = "=0.4.20"
hickory-resolver = "=0.24.4"
http = "=1.5.0"
http-body = "=1.1.0"
http-body-util = "=0.1.5"
hyper = { version = "=1.12.0", features = ["client", "http1", "http2"] }
hyper-util = { version = "=0.1.21", features = ["client", "client-legacy", "http1", "http2", "tokio"] }
pin-project-lite = "=0.2.17"
tokio = { version = "=1.54.1", features = ["net", "time", "rt", "io-util"] }
tokio-boring2 = "=4.15.15"
tokio-socks = "=0.5.3"
tower = { version = "=0.5.3", features = ["util", "timeout", "retry"] }
tower-http = { version = "=0.6.11", features = ["decompression-gzip", "decompression-deflate", "decompression-br", "decompression-zstd"] }
tower-layer = "=0.3.3"
tower-service = "=0.3.3"
url = "=2.5.8"
