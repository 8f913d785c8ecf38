[package]
name = "matrix_runner"
version = "0.1.0"
edition = "2021"
publish = false

[dependencies]
tokio = { version = "1", features = ["macros", "rt-multi-thread", "process", "signal", "sync", "time"] }
futures = "0.3"
stream-cancel = "*"
structopt = "0.3"
tempdir = "0.3"
fs_extra = "1"
serde = { version = "1", features = ["derive"] }
serde_json = "1"
tracing = "0.1"
tracing-subscriber = { version = "0.3", features = ["env-filter"] }

[dev-dependencies]
semver = "1"
