[package]
name = "reqwest_trace"
version = "0.1.0"
edition = "2021"
publish = false

[dependencies]
reqwest = { version = "=0.13.5", default-features = false, features = ["json", "multipart", "charset", "form", "query"] }
tokio = { version = "=1.53.2", features = ["time"] }
http = "=1.5.0"
bytes = "=1.12.1"
serde = "=1.0.229"
serde_json = "=1.0.151"
tracing = "=0.1.44"
metrics = "=0.24.6"
