[package]
name = "nav2_send_goal_rust"
version = "0.1.0"
edition = "2021"
publish = false

[dependencies]
async-std = "1"
colored = "2"
futures = "0.3"
r2r = "*"
tokio = { version = "1", features = ["full"] }
