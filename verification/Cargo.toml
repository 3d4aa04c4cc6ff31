[package]
name = "backend"
version = "0.1.0"
edition = "2021"
publish = false

[dependencies]
dotenv = "0.15"
futures-util = { version = "0.3", default-features = false, features = ["sink", "std"] }
tokio = { version = "1", features = ["macros", "net", "rt-multi-thread", "signal", "sync"] }
tokio-tungstenite = { version = "*", default-features = false, features = ["handshake"] }
warp = { version = "0.3", default-features = false }
