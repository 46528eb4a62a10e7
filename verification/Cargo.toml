[package]
name = "multi-arch-container-rust"
version = "0.1.0"
edition = "2021"
publish = false

[dependencies]
config = { version = "*", default-features = false, features = ["json"] }
serde = { version = "*", features = ["derive"] }
ctrlc = { version = "*", features = ["termination"] }
sys-info = "*"
tokio = { version = "*", features = ["macros", "rt-multi-thread", "sync", "time"] }
tracing = "*"
tracing-subscriber = { version = "*", features = ["env-filter", "json", "fmt"] }
opentelemetry = "*"
opentelemetry_sdk = { version = "*", features = ["rt-tokio", "logs", "metrics", "trace"] }
opentelemetry-otlp = { version = "*", default-features = false, features = ["http-proto", "reqwest-blocking-client", "trace", "metrics", "logs"] }
opentelemetry-appender-tracing = "*"
tracing-opentelemetry = "*"
