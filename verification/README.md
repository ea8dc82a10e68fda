# shim_bridge_emit

Emits bridge crates: Rust crates that offer the functions of a WIT shim (PostGIS, MobilityDB and
the like) to SQLite or DuckDB as a WebAssembly component. The library turns a plan of functions,
the shapes of their parameters and results, and the shim's WIT packages into the texts of such a
crate. What each text holds is stated in contracts and proved with Verus.

Three kinds of bridge are emitted:

- `sqlite`: a component that exports the `sqlite:extension` contract and imports the shim.
- `duckdb`: a component that exports the `duckdb:extension` contract and imports the shim.
- `dynlink`: a component that exports the `sqlite:extension` contract and reaches its provider
  through a linker at run time.

## Layout

- `src/ir.rs`: plans, shapes, records and packages.
- `src/text.rs`, `src/words.rs`, `src/order.rs`: templates, names and sorted sets of texts.
- `src/packages.rs`, `src/worlds.rs`, `src/shim_dirs.rs`: WIT packages, worlds and directories.
- `src/calls.rs`, `src/tuples.rs`, `src/gather.rs`, `src/derives.rs`, `src/describe.rs`: what both
  bridges share.
- `src/value_model.rs`: values and columns that belong to no database.
- `src/sqlite/`, `src/duckdb/`, `src/dynlink/`: the three kinds of bridge. `laws.rs` holds what
  relates several of their parts, such as that a function is dispatched under the number that
  the manifest lists for it, or that values are made as they are declared.
- `app/`: reads packages and interface databases, and writes the crates to disk.
- `tests/`: tests on concrete values.

## What is trusted

`serde_json` parses the signatures of table functions; its results are named, not described.
Of the standard library, `String::push`, and upper case, white space and quoting beyond ASCII are
trusted.
