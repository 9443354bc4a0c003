[package]
name = "problem_json"
version = "0.1.0"
edition = "2021"
publish = false

[dependencies]
serde = "1"
serde_json = "1"
async-trait = "0.1"
trillium = "=0.2.20"
trillium-router = "=0.4.1"
