[package]
name = "v1"
version = "0.1.0"
edition = "2021"
publish = false

[dependencies]
chrono = "=0.4.45"
diesel = { version = "=2.3.14", features = ["postgres", "chrono", "r2d2"] }
flate2 = "=1.1.10"
guid-create = "=0.5.2"
murmur3 = "=0.5.2"
redis = "=1.7.1"
tokio = { version = "=1.53.2", features = ["full"] }
