[package]
name = "http2_server"
version = "0.1.0"
edition = "2021"
publish = false

[dependencies]
axum = "*"
bytes = "*"
clap = { version = "*", features = ["derive"] }
futures = "*"
hyper = { version = "*", features = ["server", "http1", "http2"] }
hyper-util = { version = "*", features = ["server-auto", "http2", "tokio"] }
rustls = { version = "*", features = ["ring"] }
rustls-pemfile = "*"
tokio = { version = "*", features = ["rt-multi-thread", "net", "macros"] }
tokio-rustls = "*"
tower = "*"
tower-http = { version = "*", features = ["fs"] }
