[package]
name = "gtk_gl_shaders"
version = "0.1.0"
edition = "2021"
publish = false

[dependencies]
glib = { version = "*", features = ["log"] }
gtk4 = "*"
image = "*"
libloading = "*"
log = "*"
