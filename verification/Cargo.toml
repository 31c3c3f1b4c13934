[package]
name = "cratuity"
version = "0.1.0"
edition = "2021"
publish = false

[dependencies]
clipboard = "0.5"
crossbeam-channel = "0.5"
crossterm = "0.25"
serde_json = "1"
structopt = "0.3"
tui = "0.19"
ureq = "2"
