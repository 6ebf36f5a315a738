[package]
name = "measurements"
version = "0.1.0"
edition = "2021"
publish = false

[dependencies]
bigdecimal = { version = "*", features = ["serde"] }
chrono = { version = "*", features = ["serde"] }
diesel = { version = "*", features = ["postgres", "uuid", "chrono", "numeric"] }
serde = { version = "*", features = ["derive"] }
uuid = { version = "*", features = ["serde"] }
