//! Loads a measurement-sampling configuration from YAML text: a location
//! label and an ordered list of sample definitions, with unset optional
//! fields filled in by a separate, idempotent defaulting pass.

pub mod config_client;
pub mod document;
pub mod model;
pub mod yaml;
