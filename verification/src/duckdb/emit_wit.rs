//! The WIT world of a bridge.

use vstd::prelude::*;
use vstd::string::*;

use crate::ir::WitPackage;
use crate::text::{self, fill1, same};
use crate::worlds;

pub use crate::words::package_belongs_to_primary;

verus! {

pub const PACKAGE_LINE: &'static str = r#"package ducklink-bridge:{primary}@0.1.0;

"#;

pub const WORLD_DOC: &'static str = r#"/// Generated by sqlink-shim-codegen (target=duckdb).
/// Bridges the shim's WIT-exposed surface onto the
/// canonical `duckdb:extension@4.0.0` contract. Imports
/// are derived from the shim's vendored WIT packages +
/// the DuckDB runtime surface; exports are the fixed
/// (guest + callback-dispatch) pair every DuckDB
/// extension component declares.
world bridge {
"#;

/// The DuckDB interfaces that a bridge imports.
pub const DUCKDB_IMPORTS: [&'static str; 5] = ["runtime", "config", "logging", "catalog", "files"];

/// The DuckDB interfaces that a bridge exports: its lifecycle, the dispatch of calls, and the
/// dispatch of incremental aggregates and windows.
pub const DUCKDB_EXPORTS: [&'static str; 3] = [
    "guest",
    "callback-dispatch",
    "aggregate-incr-dispatch",
];

/// The world of a bridge: it imports every interface of the shim's packages and the DuckDB
/// runtime, and exports what each DuckDB extension does.
pub open spec fn world(primary: Seq<char>, pkgs: Seq<WitPackage>, duckdb: WitPackage) -> Seq<char> {
    text::fill(PACKAGE_LINE@, seq![("primary"@, primary)]) + WORLD_DOC@ + worlds::package_imports(
        pkgs,
        pkgs.len(),
    ) + "\n"@ + worlds::contract_lines(worlds::IMPORT@, duckdb, DUCKDB_IMPORTS@, 5) + "\n"@
        + worlds::contract_lines(worlds::EXPORT@, duckdb, DUCKDB_EXPORTS@, 3) + "}\n"@
}

/// Writes the world of a bridge.
pub fn render_world(primary: &str, shim_packages: &Vec<WitPackage>, duckdb_pkg: &WitPackage) -> (r:
    String)
    ensures
        r@ == world(primary@, shim_packages@, *duckdb_pkg),
{
    let mut imports = String::new();
    let mut k: usize = 0;
    while k < 5
        invariant
            k <= 5,
            imports@ == worlds::contract_lines(worlds::IMPORT@, *duckdb_pkg, DUCKDB_IMPORTS@, k as nat),
        decreases 5 - k,
    {
        let line = worlds::render_contract_line(worlds::IMPORT, duckdb_pkg, DUCKDB_IMPORTS[k]);
        imports.append(line.as_str());
        k = k + 1;
    }
    let mut exports = String::new();
    k = 0;
    while k < 3
        invariant
            k <= 3,
            exports@ == worlds::contract_lines(worlds::EXPORT@, *duckdb_pkg, DUCKDB_EXPORTS@, k as nat),
        decreases 3 - k,
    {
        let line = worlds::render_contract_line(worlds::EXPORT, duckdb_pkg, DUCKDB_EXPORTS[k]);
        exports.append(line.as_str());
        k = k + 1;
    }
    let mut s = fill1(PACKAGE_LINE, "primary", primary);
    s.append(WORLD_DOC);
    let shim = worlds::render_package_imports(shim_packages);
    s.append(shim.as_str());
    s.append("\n");
    s.append(imports.as_str());
    s.append("\n");
    s.append(exports.as_str());
    s.append("}\n");
    s
}

/// Whether a directory of a shim's dependencies is taken over into the bridge: the SQLite
/// contract is not part of a DuckDB world.
pub fn takes_over(directory: &str) -> (r: bool)
    ensures
        r == (directory@ != "sqlite-extension"@),
{
    !same(directory, "sqlite-extension")
}

/// Whether a directory of a shim's dependencies may hold a package of the shim: the contract
/// packages of the databases are not.
pub fn holds_shim_package(directory: &str) -> (r: bool)
    ensures
        r == (directory@ != "sqlite-extension"@ && directory@ != "duckdb-extension"@),
{
    !same(directory, "sqlite-extension") && !same(directory, "duckdb-extension")
}

} // verus!
