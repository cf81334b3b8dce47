[package]
name = "chiselstore"
version = "0.1.0"
edition = "2021"
publish = false

[dependencies]
crossbeam = "0.8.5"
tokio = { version = "1.53.2", features = ["rt"] }
async-mutex = "1.4.1"
