[package]
name = "bevy_http"
version = "0.1.0"
edition = "2021"
publish = false

[dependencies]
surf = { version = "2", default-features = false, features = ["h1-client-rustls"] }
url = "2"
futures-core = "0.3"
