[package]
name = "dilbert_viewer"
version = "0.1.0"
edition = "2021"
publish = false

[dependencies]
actix-files = "=0.6.10"
actix-web = "=4.18.1"
askama = "=0.12.1"
async-trait = "=0.1.92"
awc = "=3.11.0"
chrono = { version = "=0.4.45", features = ["serde"] }
deadpool-redis = "=0.23.1"
html-escape = "=0.2.15"
log = "=0.4.34"
minifier = "=0.3.6"
minify-html = "=0.4.11"
pin-project = "=1.1.13"
portpicker = "=0.1.1"
rand = "=0.8.8"
serde = { version = "=1.0.229", features = ["derive"] }
serde_json = "=1.0.154"
thiserror = "=1.0.69"
tl = "=0.7.8"
tokio = { version = "=1.54.1", features = ["fs"] }
tracing = "=0.1.44"
tracing-appender = "=0.2.5"
tracing-subscriber = { version = "=0.3.23", features = ["env-filter"] }
uuid = { version = "=1.29.0", features = ["v4"] }

[dev-dependencies]
content-security-policy = "*"
