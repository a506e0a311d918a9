//! Configuration: the TOML file model, its validation, and how files and
//! command-line overrides resolve into the settings of a run.
pub mod error;
pub mod model;
pub mod outside;
pub mod validate;
pub mod resolve;
pub mod discover;
pub mod laws;
