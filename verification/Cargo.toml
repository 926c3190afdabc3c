[package]
name = "crash_viewer"
version = "0.1.0"
edition = "2021"
publish = false

[dependencies]
actix-web = { version = "=4.18.1", default-features = false, features = ["macros"] }
anyhow = "=1.0.104"
backtrace = "=0.3.76"
minidump = "=0.27.0"
serde = { version = "=1.0.229", features = ["derive"] }
serde_json = "=1.0.154"
uuid = { version = "=1.29.0", features = ["v4"] }

[dev-dependencies]
minidump-synth = "=0.27.0"
test-assembler = "=0.1.6"
