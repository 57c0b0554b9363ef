[package]
name = "weather_report"
version = "0.1.0"
edition = "2021"
publish = false

[dependencies]
chrono = { version = "0.4", default-features = false, features = ["std"] }
dotenv = "0.15"
form_urlencoded = "1"
reqwest = { version = "0.11", features = ["blocking", "json"] }
serde = { version = "1", features = ["derive"] }
serde_derive = "1"
serde_json = "1"
structopt = "0.3"
term-table = "~1.3"
text-colorizer = "1"
