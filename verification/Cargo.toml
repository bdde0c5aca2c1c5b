[package]
name = "ai_shot_core"
version = "0.1.0"
edition = "2021"
publish = false

[dependencies]
anyhow = "=1.0.104"
arboard = { version = "=3.7.0", default-features = false }
base64 = "=0.22.1"
clap = { version = "=4.6.7", default-features = false, features = ["derive", "std", "help", "usage", "error-context"] }
directories = "=6.0.0"
dotenvy = "=0.15.7"
eframe = { version = "*", default-features = false, features = ["glow", "x11", "default_fonts"] }
egui_commonmark = { version = "*", default-features = false }
futures = "=0.3.34"
gemini-rust = "=2.1.0"
image = { version = "=0.25.10", default-features = false, features = ["jpeg", "png"] }
serde = { version = "=1.0.229", features = ["derive"] }
serde_json = "=1.0.154"
thiserror = "=2.0.21"
tokio = { version = "=1.54.1", features = ["rt", "rt-multi-thread", "macros"] }
url = "=2.5.8"
