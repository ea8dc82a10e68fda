//! The bridge crate for SQLite that reaches its provider through a linker at run time.

pub mod emit_dynlink;
pub mod surface_texts;
pub mod table_sigs;
pub mod templates;
