[package]
name = "blog_server"
version = "0.1.0"
edition = "2021"
publish = false

[dependencies]
ammonia = "=4.2.4"
html2text = "=0.11.0"
serde = { version = "=1.0.229", features = ["derive"] }
serde_json = "=1.0.154"
hyper = "=0.14.32"
amqprs = { version = "=2.1.5", features = ["urispec"] }
