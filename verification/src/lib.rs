//! Typed startup configuration for a bot platform backend.
//!
//! The configuration lives in a YAML file. This crate holds the schema of
//! that file, the defaults that the generated sample file shows, the rules a
//! loaded configuration must meet, and the decisions of the loader that
//! writes the sample and reads the real file. Reading and writing YAML text
//! is left to `serde_yaml`; everything built on top of it is verified.

pub mod auth;
pub mod config;
pub mod document;
pub mod laws;
pub mod loader;
pub mod schema;
pub mod text;
pub mod yaml;
