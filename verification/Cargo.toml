[package]
name = "sulmo"
version = "0.1.0"
edition = "2021"
publish = false

[dependencies]
unicode-segmentation = "=1.13.3"
sysinfo = "=0.29.11"
serde = { version = "=1.0.229", features = ["derive"] }
serde_json = "=1.0.151"
crossterm = "=0.27.0"
ratatui = "=0.23.0"
