[package]
name = "auth_controller"
version = "0.1.0"
edition = "2021"
publish = false

[dependencies]
actix-cors = "=0.7.2"
actix-web = "=4.18.1"
anyhow = "=1.0.104"
deadpool = "=0.13.1"
deadpool-postgres = "=0.14.2"
deadpool-redis = "=0.23.1"
env_logger = "=0.11.11"
futures = "=0.3.34"
handlebars = { version = "=6.4.4", features = ["dir_source"] }
k8s-openapi = { version = "=0.27.1", features = ["latest"] }
kube = { version = "=3.1.0", default-features = false, features = ["client", "derive"] }
kube-runtime = "=3.1.0"
log = "=0.4.34"
postgres = "=0.19.14"
rdkafka = "=0.39.0"
reqwest = { version = "=0.13.5", default-features = false, features = ["json"] }
schemars = "=1.2.3"
serde = { version = "=1.0.229", features = ["derive"] }
serde_json = "=1.0.154"
serde_yaml = "=0.9.34"
time = "=0.3.55"
tokio = { version = "=1.54.1", features = ["macros", "rt-multi-thread", "signal", "sync", "time"] }
tokio-postgres = { version = "=0.7.18", features = ["with-uuid-1"] }
uuid = { version = "=1.29.0", features = ["v4"] }
