[package]
name = "box_plot_chart"
version = "0.1.0"
edition = "2021"
publish = false

[dependencies]
clap = { version = "*", features = ["derive"] }
easy-error = "*"
json5 = "*"
serde = { version = "*", features = ["derive"] }
svg = "*"
yansi = "*"
