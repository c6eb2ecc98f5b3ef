[package]
name = "druid_media"
version = "0.1.0"
edition = "2021"
publish = false

[dependencies]
druid = "0.7"
gstreamer = "0.16"
gstreamer-app = "0.16"
gstreamer-video = "0.16"
log = "0.4"
thiserror = "1"
