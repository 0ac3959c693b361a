[package]
name = "wp_data_fmt"
version = "0.1.0"
edition = "2021"
publish = false

[dependencies]
chrono = "=0.4.45"
wp-model-core = "=0.9.0"
