[package]
name = "autd3_link_soem"
version = "0.1.0"
edition = "2021"
publish = false

[dependencies]
autd3-core = { version = "=36.0.2", features = ["link", "geometry", "ethercat", "sleep", "std"] }
autd3-protobuf = "=36.0.2"
crossbeam-channel = "=0.5.17"
spin_sleep = "=1.3.3"
thread-priority = "=3.1.1"
core_affinity = "=0.8.3"
time = "=0.3.55"
tokio = { version = "=1.53.2", features = ["rt-multi-thread"] }
tonic = "=0.14.6"
thiserror = "=2.0.21"
zerocopy = "=0.8.59"
