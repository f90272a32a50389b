[package]
name = "ocr_worker"
version = "0.1.0"
edition = "2021"
publish = false

[dependencies]
futures-lite = "2"
image = "*"
lapin = "2"
reqwest = "0.12"
rusty-tesseract = "1"
serde = { version = "1", features = ["derive"] }
serde_json = "1"
tikv-jemallocator = "*"
tokio = { version = "1", features = ["macros", "rt-multi-thread"] }
toml = "0.8"
tracing = "0.1"
url = "2"
