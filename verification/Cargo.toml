[package]
name = "pyfalcon"
version = "0.1.0"
edition = "2021"
publish = false

[dependencies]
clap = "=4.6.7"
pyc_editor = { version = "=0.4.10", features = ["sir", "v310", "v311", "v312", "v313"] }
python_marshal = "=0.4.9"
yansi = "=1.0.1"
