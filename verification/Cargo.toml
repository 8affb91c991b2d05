[package]
name = "evndns"
version = "0.1.0"
edition = "2021"
publish = false

[dependencies]
anyhow = "1"
async-trait = "0.1"
clap = { version = "4", features = ["derive", "env"] }
once_cell = "1"
thiserror = "1"
tokio = { version = "1", features = ["macros", "net", "rt-multi-thread"] }
tracing = "0.1"
tracing-subscriber = "0.3"
trust-dns-resolver = "0.22"
trust-dns-server = "0.22"

[dev-dependencies]
