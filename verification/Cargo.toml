[package]
name = "rust_printer"
version = "0.1.0"
edition = "2021"
publish = false

[dependencies]
regex = { version = "1", default-features = false, features = ["std", "unicode"] }
flate2 = "1"
chrono = { version = "0.4", default-features = false, features = ["clock", "std"] }
serde = { version = "1", features = ["derive"] }
reqwest = { version = "0.12", default-features = false, features = ["json", "multipart", "cookies", "rustls-tls"] }
tokio = { version = "1", features = ["macros", "rt-multi-thread", "net", "io-util", "sync", "time"] }
image = { version = "0.25", default-features = false, features = ["png"] }
dirs = "5"
qr2term = "0.3"
