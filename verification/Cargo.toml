[package]
name = "query_expr"
version = "0.1.0"
edition = "2021"
publish = false

[dependencies]
chrono = { version = "=0.4.39", default-features = false }
datafusion = { version = "=40.0.0", default-features = false, features = ["array_expressions", "crypto_expressions", "datetime_expressions", "encoding_expressions", "regex_expressions", "string_expressions", "unicode_expressions"] }
datafusion-common = "=40.0.0"
datafusion-expr = "=40.0.0"
datafusion-functions-array = "=40.0.0"
pyo3 = { version = "=0.21.2", features = ["extension-module", "abi3-py38"] }
