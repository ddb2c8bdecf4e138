[package]
name = "synapse_module_bridge"
version = "0.1.0"
edition = "2021"
publish = false

[dependencies]
bytes = "1"
http = "0.2"
http-body = "0.4"
pyo3 = "*"
pyo3-twisted-web = "*"
serde = { version = "1", features = ["derive"] }
serde_json = "1"
serde_path_to_error = "0.1"
tower-service = "0.3"
