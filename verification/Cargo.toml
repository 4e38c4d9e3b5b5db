[package]
name = "kestrel"
version = "0.1.0"
edition = "2021"
publish = false

[dependencies]
anyhow = "=1.0.104"
bollard = "=0.17.1"
cargo_metadata = "=0.18.1"
convert_case = "=0.6.0"
futures = "=0.3.34"
git2 = { version = "=0.19.0", default-features = false }
ignore = "=0.4.33"
serde = { version = "=1.0.229", features = ["derive"] }
serde_json = "=1.0.154"
tempfile = "=3.27.0"
thiserror = "=1.0.69"
tokio = { version = "=1.54.1", features = ["full"] }
tracing = "=0.1.44"
uuid = { version = "=1.29.0", features = ["v4"] }
zip = { version = "=2.6.1", default-features = false }

[dev-dependencies]
regex = "1"
