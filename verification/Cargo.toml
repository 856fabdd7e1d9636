[package]
name = "wakeword"
version = "0.1.0"
edition = "2021"
publish = false

[dependencies]
anyhow = "1"
cpal = "0.15"
dotenv = "0.15"
hound = "3.5"
ndarray = "0.16"
reqwest = { version = "0.12", default-features = false, features = ["blocking", "json", "multipart", "rustls-tls"] }
rustfft = "6"
serde_json = "1"
winapi = { version = "0.3", features = ["mmsystem", "playsoundapi", "winuser"] }
