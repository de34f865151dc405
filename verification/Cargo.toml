[package]
name = "la_muralla"
version = "0.1.0"
edition = "2021"
publish = false

[dependencies]
anyhow = "=1.0.104"
async-trait = "=0.1.92"
axum = { version = "=0.8.9", features = ["multipart"] }
calamine = "=0.37.0"
csv = "=1.4.0"
dotenvy = "=0.15.7"
html2text = "=0.16.7"
lopdf = { version = "=0.46.0", default-features = false }
neo4rs = "=0.8.0"
reqwest = "=0.13.5"
rig-core = "=0.31.0"
secrecy = { version = "=0.10.3", features = ["serde"] }
serde = { version = "=1.0.229", features = ["derive"] }
serde_json = "=1.0.154"
tera = { version = "=1.20.1", default-features = false }
thiserror = "=2.0.21"
tokio = { version = "=1.54.1", features = ["full"] }
tokio-stream = "=0.1.19"
tower-http = { version = "=0.7.1", features = ["trace", "cors"] }
tracing = "=0.1.44"
tracing-subscriber = "=0.3.23"
utoipa = "=6.0.0"
utoipa-swagger-ui = { version = "=10.0.2", features = ["axum", "vendored"] }
uuid = { version = "=1.29.0", features = ["v4"] }
validator = { version = "=0.21.0", features = ["derive"] }
xml-rs = "=1.0.0"
zip = { version = "=9.1.0", default-features = false, features = ["deflate"] }
