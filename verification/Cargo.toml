[package]
name = "gizmo"
version = "0.1.0"
edition = "2021"
publish = false

[dependencies]
transform-gizmo = "0.9"
enumset = "1.1"
glam = { version = "*", features = ["mint"] }
itertools = "*"
cxx = "1"
cxx-qt = "0.7"
cxx-qt-lib = { version = "0.7", features = ["qt_gui", "qt_qml"] }
