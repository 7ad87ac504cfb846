[package]
name = "udevgames"
version = "0.1.0"
edition = "2021"
publish = false

[dependencies]
actix-files = "0.5"
actix-session = "=0.4.1"
actix-web = "=3.3.3"
chrono = "=0.4.45"
diesel = { version = "=1.4.8", features = ["postgres", "r2d2", "chrono"] }
reqwest = { version = "=0.10.10", features = ["json"] }
serde = { version = "=1.0.229", features = ["derive"] }
tera = "=1.20.1"
thiserror = "=1.0.69"
