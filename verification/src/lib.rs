//! Configuration store for the GG Deploy desktop application.
//!
//! The store persists a small JSON document holding DNS-provider
//! credentials at `<home>/.gg-deploy/config.json`.  This crate holds the
//! verified core: the configuration data model, the JSON codec for the
//! config file format, path resolution, the error taxonomy, and the
//! menu-event rule.  File input and output stay outside, in the thin
//! application shell that drives this library.

pub mod config;
pub mod errors;
pub mod laws;
pub mod menu;
pub mod parse;
pub mod path;
pub mod ser;
pub mod text;
