[package]
name = "dependabot_tracker"
version = "0.1.0"
edition = "2021"
publish = false

[dependencies]
color-eyre = "0.6"
crossterm = "0.27"
dotenv = "0.15"
ratatui = "0.26"
reqwest = { version = "0.11", features = ["blocking", "json"] }
serde = { version = "1", features = ["derive"] }
serde_json = "1"
throbber-widgets-tui = "0.5"
tracing = "0.1"
