[package]
name = "storage_gas"
version = "0.1.0"
edition = "2021"
publish = false

[dependencies]
criterion = "0.5.1"
move-core-types = "0.0.3"
num_cpus = "1.17.0"
poem-openapi = "5.1.16"
proptest = "1.12.0"
serde = { version = "1", features = ["derive"] }
thiserror = "1.0.69"
