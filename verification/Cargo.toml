[package]
name = "cipollino_client"
version = "0.1.0"
edition = "2021"
publish = false

[dependencies]
pathdiff = "=0.2.3"
rand = "=0.9.5"
directories = "=6.0.0"
rfd = { version = "=0.17.2", default-features = false, features = ["xdg-portal"] }
serde = "=1.0.229"
