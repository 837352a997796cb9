[package]
name = "bus_queue"
version = "0.1.0"
edition = "2021"
publish = false

[dependencies]
event-listener = "2"
futures-core = "0.3"
futures-sink = "0.3"
