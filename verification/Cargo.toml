[package]
name = "pc_landing_page"
version = "0.1.0"
edition = "2021"
publish = false

[dependencies]
itertools = "=0.15.0"
tokio = { version = "=1.53.2", features = ["full"] }
clap = { version = "=4.6.7", features = ["derive"] }
serde = { version = "=1.0.229", features = ["derive"] }
serde_json = "1"
prost = "=0.14.4"
warp = { version = "=0.3.7", features = ["tls"] }
hyper = { version = "=1.12.0", features = ["full"] }
hyper-util = { version = "=0.1.21", features = ["full"] }
http-body-util = "=0.1.5"
rustls = "=0.23.45"
rustls-pemfile = "=2.2.0"
tokio-rustls = "=0.26.6"
pretty_env_logger = "=0.5.0"
async-trait = "=0.1.92"
futures-util = "=0.3.34"
