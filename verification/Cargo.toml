[package]
name = "aurl_rust"
version = "0.1.3"
edition = "2021"
publish = false

[dependencies]
clap = { version = "=3.2.25", features = ["derive"] }
dirs = "=4.0.0"
log = "=0.4.35"
log4rs = { version = "=1.4.0", default-features = false, features = ["console_appender", "pattern_encoder"] }
regex = "=1.13.1"
reqwest = { version = "=0.11.27", default-features = false, features = ["json", "rustls-tls"] }
serde = { version = "=1.0.229", features = ["derive"] }
serde_json = "=1.0.154"
tini = "=1.3.0"
tokio = { version = "=1.54.1", features = ["macros", "rt-multi-thread"] }

[dev-dependencies]
base64 = "=0.13.1"
http = "=0.2.12"
