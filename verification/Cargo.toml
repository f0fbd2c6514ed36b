[package]
name = "paperless_ingest"
version = "0.1.0"
edition = "2021"
publish = false

[dependencies]
config = "=0.15.27"
flexi_logger = { version = "=0.31.10", features = ["compress"] }
log = "=0.4.34"
notify = "=8.2.0"
reqwest = { version = "=0.13.5", default-features = false, features = ["blocking", "multipart"] }
serde = { version = "=1.0.229", features = ["derive"] }
