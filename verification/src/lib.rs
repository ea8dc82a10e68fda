//! Emitters of SQL bridge crates.

pub mod text;
pub mod words;
pub mod order;
pub mod ir;
pub mod packages;
pub mod worlds;
pub mod references;
pub mod shim_dirs;
pub mod tuples;
pub mod call_texts;
pub mod calls;
pub mod describe;
pub mod describe_texts;
pub mod gather;
pub mod derives;
pub mod value_model;
pub mod duckdb;
pub mod dynlink;
pub mod sqlite;
