[package]
name = "llama_params"
version = "0.1.0"
edition = "2021"
publish = false

[dependencies]
llama_cpp_sys = "*"
num_cpus = "*"
