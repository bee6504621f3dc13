[package]
name = "parallelion"
version = "0.1.0"
edition = "2021"
publish = false

[dependencies]
chrono = "=0.4.45"
num_cpus = "=1.17.0"
crossbeam-channel = "=0.5.17"
indicatif = "=0.18.6"
log = "=0.4.34"
simplelog = "=0.12.2"
structopt = "=0.3.26"
