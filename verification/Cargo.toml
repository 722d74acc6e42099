[package]
name = "pingr"
version = "0.1.0"
edition = "2021"
publish = false

[dependencies]
url = "2"
serde = { version = "1", features = ["derive"] }
serde_json = "1"
toml = "0.8"
curl = "0.4"
machineid-rs = "1"
ctrlc = "3"
service-manager = "0.7"
wifiscanner = "0.5"
