[package]
name = "indexify"
version = "0.1.0"
edition = "2021"
publish = false

[dependencies]
ring = "=0.17.14"
clap = { version = "*", features = ["derive", "env"] }
clap-verbosity-flag = "*"
color-eyre = "*"
eyre = "*"
futures = "*"
indicatif = { version = "=0.18.6", features = ["tokio"] }
machine-uid = "*"
mime_guess = "*"
posthog-rs = "*"
reqwest = { version = "*", default-features = false, features = ["json", "multipart", "stream"] }
serde = { version = "*", features = ["derive"] }
serde_json = "*"
serde_path_to_error = "*"
serde_yaml = "*"
tabled = "*"
tokio = { version = "*", features = ["full"] }
tokio-util = { version = "*", features = ["codec", "compat"] }
tracing = "*"
tracing-core = "*"
tracing-error = "*"
tracing-log = "*"
tracing-subscriber = { version = "*", features = ["env-filter"] }
