[package]
name = "simulation_controller"
version = "0.1.0"
edition = "2021"
publish = false

[dependencies]
colored = "3"
crossbeam-channel = "0.5"
log = "0.4"
rand = "0.9"
thiserror = "2"
