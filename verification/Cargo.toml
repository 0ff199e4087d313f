[package]
name = "apollo-composition"
version = "0.1.0"
edition = "2021"
publish = false

[dependencies]
apollo-compiler = "=1.0.0-beta.20"
apollo-federation = "=2.0.0-alpha.3"
apollo-federation-types = "=0.14.1"
deno_core = "=0.107.0"
either = "=1.19.0"
serde = { version = "=1.0.229", features = ["derive"] }
serde_json = "=1.0.154"
thiserror = "=1.0.69"
tokio = { version = "=1.54.1", features = ["process", "io-util", "time", "macros", "rt-multi-thread"] }
