[package]
name = "plural_userproxies"
version = "0.1.0"
edition = "2021"
publish = false

[dependencies]
check-latest = { version = "1", features = ["async"] }
color-eyre = "0.6"
crossterm = { version = "0.28", features = ["event-stream"] }
directories = "6"
futures = "0.3"
itertools = "0.14"
ratatui = { version = "0.29", features = ["serde"] }
reqwest = { version = "0.12", features = ["json"] }
serde = { version = "1", features = ["derive"] }
serde_json = "1"
tokio = { version = "1", features = ["full"] }
tui-input = "0.11"
twilight-gateway = "0.16"
twilight-model = "0.16"
