//! Package metadata extraction and upload sequencing for Move documentation.

pub mod docgen;
pub mod error;
pub mod json;
pub mod manifest;
pub mod remote;
pub mod scan;
pub mod session;
pub mod text;
pub mod toml_table;
pub mod upload;
