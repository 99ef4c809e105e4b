//! A registry of named row-transform formulas, the built-in executors that
//! back them, the pure half of the compile-test pipeline for candidate
//! executor source, and a generator of executor source templates.
pub mod value;
pub mod executor;
pub mod descriptor;
pub mod engine;
pub mod code;
pub mod defaults;
pub mod templates;
pub mod generator;
pub mod config_sync;
