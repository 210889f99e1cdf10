[package]
name = "rusty_battery"
version = "0.1.0"
edition = "2021"
publish = false

[dependencies]
battery = "0.7"
chrono = "0.4"
clap = { version = "4", features = ["derive"] }
clap-verbosity-flag = "2"
ctrlc = { version = "3", features = ["termination"] }
env_logger = "0.10"
log = "0.4"
notify-rust = "4"
thiserror = "1"
