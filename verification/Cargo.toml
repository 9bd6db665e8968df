[package]
name = "trajectory-service"
version = "0.1.0"
edition = "2021"
publish = false

[dependencies]
actix-web = { version = "4", default-features = false, features = ["macros"] }
actix-web-prom = { version = "*", default-features = false }
chrono = "0.4"
dotenv = "0.15"
http = "1"
prost = "0.14"
prost-types = "0.14"
sgp4 = "2"
thiserror = "*"
tokio = { version = "1", features = ["macros", "rt-multi-thread", "time"] }
tonic = "0.14"
tonic-prost = "0.14"
tower = "0.5"
tracing = "0.1"
tracing-subscriber = { version = "0.3", features = ["env-filter", "json", "time"] }
uom = "*"
