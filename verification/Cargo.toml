[package]
name = "orion_telemetry"
version = "0.1.0"
edition = "2021"
publish = false

[dependencies]
bytes = "=1.12.1"
http = "=1.5.0"
http-body = "=1.1.0"
opentelemetry = { version = "=0.33.1", default-features = false, features = ["trace"] }
parking_lot = "=0.12.5"
pin-project = "=1.1.13"
tracing = "=0.1.44"
uuid = { version = "=1.29.0", features = ["v4"] }
