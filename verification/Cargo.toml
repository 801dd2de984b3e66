[package]
name = "voicebot"
version = "0.1.0"
edition = "2021"
publish = false

[dependencies]
serde_json = "1"
aes-gcm = "0.10"
chacha20poly1305 = "0.10"
opus = "0.3"
tokio = { version = "1", features = ["full"] }
tokio-tungstenite = "*"
futures-util = "0.3"
url = "2"
socket2 = "0.5"
reqwest = { version = "*", default-features = false, features = ["stream"] }
chrono = { version = "0.4", default-features = false, features = ["clock"] }
audio-processor-traits = "*"
augmented-dsp-filters = "*"
