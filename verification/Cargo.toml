[package]
name = "bevy_codegen"
version = "0.1.0"
edition = "2021"
publish = false

[dependencies]
codegen = "=0.3.0"
undo = "0.47"
serde = { version = "1", features = ["derive"] }
serde_json = "1"
clap = { version = "4", features = ["derive"] }
cli-clipboard = "0.4"
bevy = { version = "0.9", default-features = false }
bevy_editor_pls = { version = "0.2", default-features = false }
