[package]
name = "moddedboost"
version = "0.1.0"
edition = "2021"
publish = false

[dependencies]
md5 = "=0.7.0"
configparser = "=3.3.0"
serde = { version = "=1.0.229", features = ["derive"] }
serde_json = "=1.0.154"
serde_yaml = "0.9"
tokio = { version = "=1.54.1", features = ["fs", "io-util", "macros", "process", "rt-multi-thread", "time"] }
futures-util = "=0.3.34"
thiserror = "=1.0.69"
walkdir = "=2.5.0"
relative-path = "=1.9.3"
same-file = "=1.0.6"
reqwest = { version = "0.12", default-features = false, features = ["stream"] }
async-process = "2"
dircpy = { version = "0.3", default-features = false }
notify-debouncer-full = { version = "0.3", default-features = false }
