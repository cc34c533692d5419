[package]
name = "physical_expr"
version = "0.1.0"
edition = "2021"
publish = false

[dependencies]
arrow2 = { version = "*", features = ["compute_comparison", "compute_arithmetics", "compute_aggregate"] }
