[package]
name = "orbolay"
version = "0.1.0"
edition = "2021"
publish = false

[dependencies]
chrono = "0.4"
serde = { version = "1", features = ["derive"] }
serde_json = "1"
flume = "0.11"
interprocess = "2"
rdev = { version = "0.5", features = ["serialize"] }
dirs = "*"
colored = "*"
gumdrop = "0.8"
notify = "*"
sysinfo = "*"
ureq = "3"
display-info = "*"
native-dialog = "*"
bytes = "1"
