//! A worker that periodically reports its configuration and build provenance.
//!
//! The library holds the configuration model with its defaults and validation rules,
//! the decisions of the worker loop and of the logging setup.

pub mod settings;
pub mod telemetry;
pub mod worker;

pub use crate::settings::{LogFormat, UNKNOWN};
