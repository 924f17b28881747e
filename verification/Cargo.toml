[package]
name = "firewire_ctl"
version = "0.1.0"
edition = "2021"
publish = false

[dependencies]
alsa-ctl-tlv-codec = "*"
ieee1212-config-rom = "*"
