[package]
name = "embedded_ci"
version = "0.1.0"
edition = "2021"
publish = false

[dependencies]
anyhow = "1"
base64 = "=0.13.1"
bzip2 = "0.4"
clap = { version = "4", features = ["derive", "env"] }
crossbeam = "0.8"
defmt-decoder = { version = "=0.3.11", features = ["unstable"] }
defmt-parser = { version = "=0.3.4", features = ["unstable"] }
log = "0.4"
object = "=0.40.0"
once_cell = "1"
pretty_env_logger = "0.5"
rand = "0.8"
regex = "1"
reqwest = { version = "0.11", default-features = false, features = ["json"] }
rocket = { version = "0.5", features = ["json", "uuid"] }
serde = { version = "1", features = ["derive"] }
serde_json = "1"
thiserror = "1"
tokio = { version = "=1.54.1", features = ["sync", "rt", "rt-multi-thread", "macros", "time", "signal"] }
uuid = { version = "=1.29.0", features = ["v4", "serde"] }
