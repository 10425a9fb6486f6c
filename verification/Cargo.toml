[package]
name = "causal-dynamical-triangulations"
version = "0.1.0"
edition = "2021"
publish = false

[dependencies]
clap = { version = "=4.6.7", features = ["derive"] }
delaunay = "=0.7.8"
env_logger = "=0.11.11"
la-stack = "=0.4.1"
log = "=0.4.34"
num-traits = "=0.2.19"
rand = "=0.9.5"
serde = { version = "=1.0.229", features = ["derive"] }
thiserror = "=2.0.21"
uuid = { version = "=1.29.0", features = ["v4"] }
