[package]
name = "pow_solver"
version = "0.1.0"
edition = "2021"
publish = false

[dependencies]
sha2 = "0.10"
futures = "0.3"
async-std = "1"
log = "0.4"
num-bigint = "0.4"
num_cpus = "1"
