[package]
name = "vinyl"
version = "0.1.0"
edition = "2021"
publish = false

[dependencies]
config = "=0.6.0"
futures = "=0.1.31"
gdk = "=0.5.3"
glib = "=0.1.3"
gtk = "=0.1.3"
mpd = "0.1"
relm = "=0.9.6"
relm-derive = "=0.9.2"
time = "=0.1.45"
tokio-core = "=0.1.18"
tokio-timer = "=0.1.2"
