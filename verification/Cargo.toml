[package]
name = "wot_test"
version = "0.1.0"
edition = "2021"
publish = false

[dependencies]
clap = { version = "4", features = ["derive"] }
eventsource-stream = "0.2"
futures-util = "0.3"
http-api-problem = ">=0.56, <0.58"
once_cell = "1"
reqwest = { version = "0.11", default-features = false, features = ["json"] }
reqwest-eventsource = "0.4"
serde = { version = "1", features = ["derive"] }
serde_json = "1"
stable-eyre = "0.2"
time = { version = "0.3", features = ["serde-well-known", "parsing", "formatting"] }
tokio = { version = "1", features = ["rt", "macros", "sync", "time"] }
tracing = "0.1"
tracing-subscriber = "0.3"
