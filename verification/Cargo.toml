[package]
name = "devmgr"
version = "0.1.0"
edition = "2021"
publish = false

[dependencies]
argh = "0.1"
bollard = "0.19"
crossterm = "0.29"
futures-util = "0.3"
serde = { version = "1", features = ["derive"] }
serde_json = "1"
termion = "4"
tokio = { version = "1", features = ["macros", "rt", "signal", "io-util", "time"] }
