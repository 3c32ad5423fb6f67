//! A small facade over the `config` crate: it finds a settings file and an
//! optional secrets file, merges them into a layered store in order, and reads
//! typed values back by dotted key path.

pub mod error;
pub mod hydro;
pub mod locations;
pub mod settings;
pub mod store;
