//! The texts that the source of a bridge is made of. A name in braces is a hole.

use vstd::prelude::*;

verus! {

pub const HEADER: &'static str = r#"// === GENERATED by sqlink-shim-codegen (target=duckdb)  do not edit by hand ===

"#;

pub const PRELUDE: &'static str = r#"//! Generated by sqlink-shim-codegen (--target duckdb).
//!
//! Scalars / aggregates / casts / table-functions wire against
//! the `duckdb:extension@4.0.0` callback-dispatch surface. The
//! hot-path columnar methods (call-scalar-batch-col /
//! call-aggregate-col / call-cast-col, #653) lift their colvec
//! args to row-major up-front and route through the cold-path
//! row-major bodies. The call-pragma arm (#617 stub, refactored
//! in #625 into `build_pragma_dispatch_impl`) returns
//! `Duckerror::Unsupported` until a real pragma surface lands.
//! Window functions (#626) are classified by
//! `build_window_registry` so the maintainer sees coverage at
//! codegen time, but the bridge world does not yet export the
//! optional `aggregate-incr-dispatch` interface (which carries
//! `call-aggregate-window`) is wired via #661 -- the bridge world
//! exports `aggregate-incr-dispatch` so wit-bindgen generates the
//! 5-method trait; `build_window_dispatch_impl` emits the impl,
//! with `call_aggregate_window` routing per-handle to the
//! classified `WindowEntry` arm body.

#![allow(unused_imports, dead_code)]

extern crate alloc;

use alloc::format;
use alloc::string::{{String, ToString}};
use alloc::vec::Vec;

mod bindings {{
    wit_bindgen::generate!({{
        path: "wit",
        world: "bridge",
        generate_all,
        // Derive serde::Serialize + serde::Deserialize on
        // generated record types so the JSON-direct decode path
        // in the per-record helpers below resolves against the
        // upstream type (`serde_json::from_str::<UPSTREAM>(...)`).
        additional_derives: [serde::Serialize, serde::Deserialize],
        // Contract types + helper-component types + primary-shim
        // variants/flags can't derive serde out-of-the-box.
        additional_derives_ignore: [
{derives_ignore_lits}        ],
    }});
}}

use bindings::duckdb::extension::types;
use bindings::duckdb::extension::runtime;
use bindings::duckdb::extension::catalog;
use bindings::duckdb::extension::column_types;
use bindings::exports::duckdb::extension::callback_dispatch;
use bindings::exports::duckdb::extension::guest;

"#;

pub const USE_GEOMETRY: &'static str = "use bindings::{pkg_ns}::{pkg_name}::postgis_types::{{Geography, Geometry, PostgisError}};\n";

pub const USE_RASTER: &'static str = "use bindings::{pkg_ns}::{pkg_name}::postgis_raster_types::{{Raster, RasterError}};\n";

pub const USE_TOPOLOGY: &'static str = "use bindings::{pkg_ns}::{pkg_name}::postgis_topology_types::{{Topology, TopologyError}};\n";

pub const STRUCT: &'static str = r#"struct {bridge_struct};

"#;

pub const DUCKVALUE_HELPERS: &'static str = r#"// ─── Duckvalue arg helpers ───
//
// Mirror of sqlite-emit's `arg_text`/`arg_blob`/`arg_i64` set
// but unpacking from `types::Duckvalue` arms. The DuckDB FROZEN
// set is wider than SQLite's: integer / unsigned / date / etc.
// arms all coerce to a common Rust primitive via the four
// helpers below.

fn dv_text<'a>(args: &'a [types::Duckvalue], idx: usize, name: &str) -> Result<&'a str, types::Duckerror> {
    match args.get(idx) {
        Some(types::Duckvalue::Text(s)) => Ok(s.as_str()),
        _ => Err(types::Duckerror::Invalidargument(format!(
            "{name}: arg {idx} must be VARCHAR"
        ))),
    }
}

fn dv_blob<'a>(args: &'a [types::Duckvalue], idx: usize, name: &str) -> Result<&'a [u8], types::Duckerror> {
    match args.get(idx) {
        Some(types::Duckvalue::Blob(b)) => Ok(b.as_slice()),
        Some(types::Duckvalue::Text(s)) => Ok(s.as_bytes()),
        _ => Err(types::Duckerror::Invalidargument(format!(
            "{name}: arg {idx} must be BLOB"
        ))),
    }
}

fn dv_f64(args: &[types::Duckvalue], idx: usize, name: &str) -> Result<f64, types::Duckerror> {
    match args.get(idx) {
        Some(types::Duckvalue::Float64(v)) => Ok(*v),
        Some(types::Duckvalue::Float32(v)) => Ok(*v as f64),
        Some(types::Duckvalue::Int64(v)) => Ok(*v as f64),
        Some(types::Duckvalue::Int32(v)) => Ok(*v as f64),
        Some(types::Duckvalue::Uint64(v)) => Ok(*v as f64),
        Some(types::Duckvalue::Uint32(v)) => Ok(*v as f64),
        Some(types::Duckvalue::Int16(v)) => Ok(*v as f64),
        Some(types::Duckvalue::Int8(v)) => Ok(*v as f64),
        Some(types::Duckvalue::Uint16(v)) => Ok(*v as f64),
        Some(types::Duckvalue::Uint8(v)) => Ok(*v as f64),
        _ => Err(types::Duckerror::Invalidargument(format!(
            "{name}: arg {idx} must be DOUBLE"
        ))),
    }
}

fn dv_i64(args: &[types::Duckvalue], idx: usize, name: &str) -> Result<i64, types::Duckerror> {
    match args.get(idx) {
        Some(types::Duckvalue::Int64(v)) => Ok(*v),
        Some(types::Duckvalue::Int32(v)) => Ok(*v as i64),
        Some(types::Duckvalue::Uint64(v)) => Ok(*v as i64),
        Some(types::Duckvalue::Uint32(v)) => Ok(*v as i64),
        Some(types::Duckvalue::Int16(v)) => Ok(*v as i64),
        Some(types::Duckvalue::Int8(v)) => Ok(*v as i64),
        Some(types::Duckvalue::Uint16(v)) => Ok(*v as i64),
        Some(types::Duckvalue::Uint8(v)) => Ok(*v as i64),
        Some(types::Duckvalue::Boolean(b)) => Ok(if *b { 1 } else { 0 }),
        Some(types::Duckvalue::Float64(v)) => Ok(*v as i64),
        Some(types::Duckvalue::Float32(v)) => Ok(*v as i64),
        _ => Err(types::Duckerror::Invalidargument(format!(
            "{name}: arg {idx} must be INTEGER"
        ))),
    }
}

fn dv_bool(args: &[types::Duckvalue], idx: usize, name: &str) -> Result<bool, types::Duckerror> {
    match args.get(idx) {
        Some(types::Duckvalue::Boolean(b)) => Ok(*b),
        Some(types::Duckvalue::Int64(v)) => Ok(*v != 0),
        Some(types::Duckvalue::Int32(v)) => Ok(*v != 0),
        _ => Err(types::Duckerror::Invalidargument(format!(
            "{name}: arg {idx} must be BOOLEAN"
        ))),
    }
}

/// Generic error formatter for fallible upstream WIT calls. The
/// dispatch arm wraps the upstream error via this fn into a
/// String the Duckerror::Invalidargument arm carries.
fn shim_err_string<E: core::fmt::Debug>(e: E) -> String {
    format!("{:?}", e)
}

// ── JSON-as-TEXT primitive `list<X>` param helpers ──
//
// Mirror of sqlite-emit's `parse_json_list_<suffix>` set but
// error-wrapped into `types::Duckerror::Invalidargument`. The SQL
// caller passes a JSON-array literal in the TEXT/VARCHAR arg
// (e.g. `'[1.0, 2.0, 3.0]'`); the helper decodes via serde_json
// into a `Vec<T>` which the dispatch arm passes to the WIT
// function as `&[T]`.

fn parse_json_list_f64(args: &[types::Duckvalue], idx: usize, name: &str) -> Result<Vec<f64>, types::Duckerror> {
    let text = dv_text(args, idx, name)?;
    serde_json::from_str::<Vec<f64>>(text)
        .map_err(|e| types::Duckerror::Invalidargument(format!("{name}: arg {idx} must be JSON array of f64 ({e})")))
}

fn parse_json_list_i32(args: &[types::Duckvalue], idx: usize, name: &str) -> Result<Vec<i32>, types::Duckerror> {
    let text = dv_text(args, idx, name)?;
    serde_json::from_str::<Vec<i32>>(text)
        .map_err(|e| types::Duckerror::Invalidargument(format!("{name}: arg {idx} must be JSON array of s32 ({e})")))
}

fn parse_json_list_i64(args: &[types::Duckvalue], idx: usize, name: &str) -> Result<Vec<i64>, types::Duckerror> {
    let text = dv_text(args, idx, name)?;
    serde_json::from_str::<Vec<i64>>(text)
        .map_err(|e| types::Duckerror::Invalidargument(format!("{name}: arg {idx} must be JSON array of s64 ({e})")))
}

fn parse_json_list_u32(args: &[types::Duckvalue], idx: usize, name: &str) -> Result<Vec<u32>, types::Duckerror> {
    let text = dv_text(args, idx, name)?;
    serde_json::from_str::<Vec<u32>>(text)
        .map_err(|e| types::Duckerror::Invalidargument(format!("{name}: arg {idx} must be JSON array of u32 ({e})")))
}

fn parse_json_list_u64(args: &[types::Duckvalue], idx: usize, name: &str) -> Result<Vec<u64>, types::Duckerror> {
    let text = dv_text(args, idx, name)?;
    serde_json::from_str::<Vec<u64>>(text)
        .map_err(|e| types::Duckerror::Invalidargument(format!("{name}: arg {idx} must be JSON array of u64 ({e})")))
}

fn parse_json_list_u8(args: &[types::Duckvalue], idx: usize, name: &str) -> Result<Vec<u8>, types::Duckerror> {
    let text = dv_text(args, idx, name)?;
    serde_json::from_str::<Vec<u8>>(text)
        .map_err(|e| types::Duckerror::Invalidargument(format!("{name}: arg {idx} must be JSON array of u8 ({e})")))
}

fn parse_json_list_bool(args: &[types::Duckvalue], idx: usize, name: &str) -> Result<Vec<bool>, types::Duckerror> {
    let text = dv_text(args, idx, name)?;
    serde_json::from_str::<Vec<bool>>(text)
        .map_err(|e| types::Duckerror::Invalidargument(format!("{name}: arg {idx} must be JSON array of bool ({e})")))
}

fn parse_json_list_string(args: &[types::Duckvalue], idx: usize, name: &str) -> Result<Vec<String>, types::Duckerror> {
    let text = dv_text(args, idx, name)?;
    serde_json::from_str::<Vec<String>>(text)
        .map_err(|e| types::Duckerror::Invalidargument(format!("{name}: arg {idx} must be JSON array of string ({e})")))
}

// #674: `list<list<u8>>` param helper — batched WKB blobs for the
// postgis `st_*_batch` family. SQL passes JSON text matching
// `Vec<Vec<u8>>` (nested arrays of byte integers); symmetric with
// the `list<list<X>>` return convention.
fn parse_json_list_list_u8(args: &[types::Duckvalue], idx: usize, name: &str) -> Result<Vec<Vec<u8>>, types::Duckerror> {
    let text = dv_text(args, idx, name)?;
    serde_json::from_str::<Vec<Vec<u8>>>(text)
        .map_err(|e| types::Duckerror::Invalidargument(format!("{name}: arg {idx} must be JSON array of byte arrays ({e})")))
}

// #695: `list<list<X>>` param helpers for primitive non-u8
// elements. Today's surface: postgis raster `st-set-values`
// (`list<list<f64>>`) + flatgeobuf coord-list constructors.
// Symmetric with the `RetShape::JsonText { ListListPrim }` return.
fn parse_json_list_list_f64(args: &[types::Duckvalue], idx: usize, name: &str) -> Result<Vec<Vec<f64>>, types::Duckerror> {
    let text = dv_text(args, idx, name)?;
    serde_json::from_str::<Vec<Vec<f64>>>(text)
        .map_err(|e| types::Duckerror::Invalidargument(format!("{name}: arg {idx} must be JSON array of f64 arrays ({e})")))
}

fn parse_json_list_list_i32(args: &[types::Duckvalue], idx: usize, name: &str) -> Result<Vec<Vec<i32>>, types::Duckerror> {
    let text = dv_text(args, idx, name)?;
    serde_json::from_str::<Vec<Vec<i32>>>(text)
        .map_err(|e| types::Duckerror::Invalidargument(format!("{name}: arg {idx} must be JSON array of s32 arrays ({e})")))
}

fn parse_json_list_list_i64(args: &[types::Duckvalue], idx: usize, name: &str) -> Result<Vec<Vec<i64>>, types::Duckerror> {
    let text = dv_text(args, idx, name)?;
    serde_json::from_str::<Vec<Vec<i64>>>(text)
        .map_err(|e| types::Duckerror::Invalidargument(format!("{name}: arg {idx} must be JSON array of s64 arrays ({e})")))
}

fn parse_json_list_list_u32(args: &[types::Duckvalue], idx: usize, name: &str) -> Result<Vec<Vec<u32>>, types::Duckerror> {
    let text = dv_text(args, idx, name)?;
    serde_json::from_str::<Vec<Vec<u32>>>(text)
        .map_err(|e| types::Duckerror::Invalidargument(format!("{name}: arg {idx} must be JSON array of u32 arrays ({e})")))
}

fn parse_json_list_list_u64(args: &[types::Duckvalue], idx: usize, name: &str) -> Result<Vec<Vec<u64>>, types::Duckerror> {
    let text = dv_text(args, idx, name)?;
    serde_json::from_str::<Vec<Vec<u64>>>(text)
        .map_err(|e| types::Duckerror::Invalidargument(format!("{name}: arg {idx} must be JSON array of u64 arrays ({e})")))
}

fn parse_json_list_list_bool(args: &[types::Duckvalue], idx: usize, name: &str) -> Result<Vec<Vec<bool>>, types::Duckerror> {
    let text = dv_text(args, idx, name)?;
    serde_json::from_str::<Vec<Vec<bool>>>(text)
        .map_err(|e| types::Duckerror::Invalidargument(format!("{name}: arg {idx} must be JSON array of bool arrays ({e})")))
}

fn parse_json_list_list_string(args: &[types::Duckvalue], idx: usize, name: &str) -> Result<Vec<Vec<String>>, types::Duckerror> {
    let text = dv_text(args, idx, name)?;
    serde_json::from_str::<Vec<Vec<String>>>(text)
        .map_err(|e| types::Duckerror::Invalidargument(format!("{name}: arg {idx} must be JSON array of string arrays ({e})")))
}

"#;

pub const COLVEC_HELPERS: &'static str = r#"// --- Colvec <-> row-major helpers (#653 columnar callback-dispatch,
//     #659 micro-opts on the lift/lower hot path) ---

/// Validity-bitmap probe. An empty bitmap means "all rows valid"
/// (matching DuckDB's null-validity pointer convention); otherwise
/// bit i of the little-endian byte stream is set iff row i is non-NULL.
fn cv_is_valid(validity: &[u8], i: usize) -> bool {
    if validity.is_empty() {
        return true;
    }
    match validity.get(i / 8) {
        Some(byte) => (byte & (1u8 << (i % 8))) != 0,
        None => true,
    }
}

/// (#659 Opt 1) Lift a single cell from a colvec into a Duckvalue
/// without materializing the whole column. Used by the per-row
/// dispatch loops in `call_scalar_batch_col` / `call_cast_col` to
/// avoid the `Vec<Vec<Duckvalue>>` intermediate. Variable-width
/// arms (Text / Blob / Complex) clone; fixed-width arms copy.
fn colvec_get(cv: &column_types::Colvec, i: usize) -> types::Duckvalue {
    if !cv_is_valid(cv.validity.as_slice(), i) {
        return types::Duckvalue::Null;
    }
    let v = match &cv.data {
        column_types::Column::Boolean(xs)     => xs.get(i).copied().map(types::Duckvalue::Boolean),
        column_types::Column::Int64(xs)       => xs.get(i).copied().map(types::Duckvalue::Int64),
        column_types::Column::Uint64(xs)      => xs.get(i).copied().map(types::Duckvalue::Uint64),
        column_types::Column::Float64(xs)     => xs.get(i).copied().map(types::Duckvalue::Float64),
        column_types::Column::Int32(xs)       => xs.get(i).copied().map(types::Duckvalue::Int32),
        column_types::Column::Timestamp(xs)   => xs.get(i).copied().map(types::Duckvalue::Timestamp),
        column_types::Column::Int8(xs)        => xs.get(i).copied().map(types::Duckvalue::Int8),
        column_types::Column::Int16(xs)       => xs.get(i).copied().map(types::Duckvalue::Int16),
        column_types::Column::Uint8(xs)       => xs.get(i).copied().map(types::Duckvalue::Uint8),
        column_types::Column::Uint16(xs)      => xs.get(i).copied().map(types::Duckvalue::Uint16),
        column_types::Column::Uint32(xs)      => xs.get(i).copied().map(types::Duckvalue::Uint32),
        column_types::Column::Float32(xs)     => xs.get(i).copied().map(types::Duckvalue::Float32),
        column_types::Column::Date(xs)        => xs.get(i).copied().map(types::Duckvalue::Date),
        column_types::Column::Time(xs)        => xs.get(i).copied().map(types::Duckvalue::Time),
        column_types::Column::Timestamptz(xs) => xs.get(i).copied().map(types::Duckvalue::Timestamptz),
        column_types::Column::Decimal(xs) => xs.get(i).cloned().map(|d| {
            types::Duckvalue::Decimal(types::Decimalvalue {
                lower: d.lower, upper: d.upper, width: d.width, scale: d.scale,
            })
        }),
        column_types::Column::Interval(xs) => xs.get(i).cloned().map(|d| {
            types::Duckvalue::Interval(types::Intervalvalue {
                months: d.months, days: d.days, micros: d.micros,
            })
        }),
        column_types::Column::Uuid(xs) => xs.get(i).cloned().map(|d| {
            types::Duckvalue::Uuid(types::Uuidvalue { hi: d.hi, lo: d.lo })
        }),
        column_types::Column::Text(xs)  => xs.get(i).cloned().map(types::Duckvalue::Text),
        column_types::Column::Blob(xs)  => xs.get(i).cloned().map(types::Duckvalue::Blob),
        column_types::Column::Complex(xs) => xs.get(i).cloned().map(|c| {
            types::Duckvalue::Complex(types::Complexvalue {
                type_expr: c.type_expr, json: c.json,
            })
        }),
    };
    v.unwrap_or(types::Duckvalue::Null)
}

/// (#659 Opt 1) Validate that every input colvec shares the same
/// row count and return it. Mismatched lengths return an Internal
/// error -- the host-side dispatcher should never deliver ragged
/// column slices.
fn validate_colvec_rows(args: &[column_types::Colvec]) -> Result<usize, types::Duckerror> {
    let n_rows = if args.is_empty() { 0 } else { args[0].rows as usize };
    for (j, cv) in args.iter().enumerate() {
        if cv.rows as usize != n_rows {
            return Err(types::Duckerror::Internal(format!(
                "columnar dispatch: arg-column {j} has rows={} but expected {n_rows}",
                cv.rows,
            )));
        }
    }
    Ok(n_rows)
}

/// (#659 Opt 1 + Opt 3) Materialize row `i` from a slice of colvecs
/// into the provided buffer. The buffer is cleared first; capacity
/// is preserved across calls, so the dispatch loop can reuse a
/// single allocation across rows. This avoids the
/// `Vec<Vec<Duckvalue>>` intermediate (one column-Vec per arg plus
/// one row-Vec per row) that the original `colvecs_to_rows`
/// allocated.
fn materialize_row(args: &[column_types::Colvec], i: usize, out: &mut Vec<types::Duckvalue>) {
    out.clear();
    if out.capacity() < args.len() {
        out.reserve(args.len() - out.capacity());
    }
    for cv in args {
        out.push(colvec_get(cv, i));
    }
}

/// Lift a single `colvec` to a row-major `Vec<Duckvalue>`.
/// (Retained for the aggregate dispatch path; the scalar-batch and
/// cast paths now use `colvec_get` directly via `materialize_row`.)
fn colvec_to_values(cv: &column_types::Colvec) -> Vec<types::Duckvalue> {
    let n = cv.rows as usize;
    let mut out = Vec::with_capacity(n);
    for i in 0..n {
        out.push(colvec_get(cv, i));
    }
    out
}

/// Lift `args: Vec<Colvec>` to `Vec<Vec<Duckvalue>>`. (Retained for
/// the aggregate dispatch path -- aggregate arms iterate `rows`
/// directly. The scalar-batch and cast paths use `validate_colvec_rows`
/// + `materialize_row` to skip the intermediate `Vec<Vec<_>>`.)
fn colvecs_to_rows(args: &[column_types::Colvec]) -> Result<Vec<Vec<types::Duckvalue>>, types::Duckerror> {
    let n_rows = validate_colvec_rows(args)?;
    let n_args = args.len();
    let mut rows: Vec<Vec<types::Duckvalue>> = Vec::with_capacity(n_rows);
    for i in 0..n_rows {
        let mut row: Vec<types::Duckvalue> = Vec::with_capacity(n_args);
        for cv in args {
            row.push(colvec_get(cv, i));
        }
        rows.push(row);
    }
    Ok(rows)
}

/// (#659 Opt 2) Lower a row-major `Vec<Duckvalue>` back into a
/// `colvec`. Fuses the original two passes (`build_validity_bitmap`
/// then `iter().find()` for the type sniff) into a single sweep,
/// then dispatches once on the captured arm-kind to pre-allocate
/// the typed `Vec<T>`. An all-NULL / empty input falls back to a
/// boolean column (the validity bitmap carries the NULLs, so the
/// data arm is just a placeholder of the right length).
///
/// Note: the underlying lift-arm signature (handle -> Duckvalue)
/// forces a per-cell tag dispatch in the build loops. Threading
/// the arm's `RetShape` (known at codegen time) through a per-handle
/// shape registry would let us skip the tag check entirely, but
/// that touches register.rs + the dispatch surface and is out of
/// scope for #659. The sniff path here keeps the change local to
/// emit_lib.rs while still removing one full pass over `values`.
fn values_to_colvec(values: Vec<types::Duckvalue>) -> Result<column_types::Colvec, types::Duckerror> {
    // Local arm-kind tag captured during the validity pass. Cheaper
    // than holding a `&Duckvalue` borrow into `values` once we want
    // to consume `values` for the variable-width arms.
    #[derive(Clone, Copy)]
    enum K {
        Bool, I64, U64, F64, I32, Ts, I8, I16, U8, U16, U32, F32,
        Date, Time, Tstz, Decimal, Interval, Uuid, Text, Blob, Complex,
    }
    fn kind_of(v: &types::Duckvalue) -> Option<K> {
        match v {
            types::Duckvalue::Null         => None,
            types::Duckvalue::Boolean(_)   => Some(K::Bool),
            types::Duckvalue::Int64(_)     => Some(K::I64),
            types::Duckvalue::Uint64(_)    => Some(K::U64),
            types::Duckvalue::Float64(_)   => Some(K::F64),
            types::Duckvalue::Int32(_)     => Some(K::I32),
            types::Duckvalue::Timestamp(_) => Some(K::Ts),
            types::Duckvalue::Int8(_)      => Some(K::I8),
            types::Duckvalue::Int16(_)     => Some(K::I16),
            types::Duckvalue::Uint8(_)     => Some(K::U8),
            types::Duckvalue::Uint16(_)    => Some(K::U16),
            types::Duckvalue::Uint32(_)    => Some(K::U32),
            types::Duckvalue::Float32(_)   => Some(K::F32),
            types::Duckvalue::Date(_)      => Some(K::Date),
            types::Duckvalue::Time(_)      => Some(K::Time),
            types::Duckvalue::Timestamptz(_) => Some(K::Tstz),
            types::Duckvalue::Decimal(_)   => Some(K::Decimal),
            types::Duckvalue::Interval(_)  => Some(K::Interval),
            types::Duckvalue::Uuid(_)      => Some(K::Uuid),
            types::Duckvalue::Text(_)      => Some(K::Text),
            types::Duckvalue::Blob(_)      => Some(K::Blob),
            types::Duckvalue::Complex(_)   => Some(K::Complex),
        }
    }

    let n = values.len();
    let rows = n as u32;

    // Single-pass validity build + first-non-null sniff.
    let mut bits: Vec<u8> = alloc::vec![0u8; (n + 7) / 8];
    let mut any_null = false;
    let mut kind: Option<K> = None;
    for (i, v) in values.iter().enumerate() {
        if matches!(v, types::Duckvalue::Null) {
            any_null = true;
        } else {
            bits[i / 8] |= 1u8 << (i % 8);
            if kind.is_none() { kind = kind_of(v); }
        }
    }
    let validity = if any_null { bits } else { Vec::new() };

    // Typed pre-allocation per arm. `Vec::with_capacity(n)` +
    // pushes is semantically identical to `iter().map().collect()`
    // for a slice iterator (which already calls `size_hint`), but
    // hoisting the allocation up to the arm head makes the pattern
    // obvious for future per-shape specialization.
    let data = match kind {
        None => column_types::Column::Boolean(alloc::vec![false; n]),
        Some(K::Bool) => {
            let mut xs: Vec<bool> = Vec::with_capacity(n);
            for v in &values {
                xs.push(if let types::Duckvalue::Boolean(b) = v { *b } else { false });
            }
            column_types::Column::Boolean(xs)
        }
        Some(K::I64) => {
            let mut xs: Vec<i64> = Vec::with_capacity(n);
            for v in &values {
                xs.push(if let types::Duckvalue::Int64(x) = v { *x } else { 0 });
            }
            column_types::Column::Int64(xs)
        }
        Some(K::U64) => {
            let mut xs: Vec<u64> = Vec::with_capacity(n);
            for v in &values {
                xs.push(if let types::Duckvalue::Uint64(x) = v { *x } else { 0 });
            }
            column_types::Column::Uint64(xs)
        }
        Some(K::F64) => {
            let mut xs: Vec<f64> = Vec::with_capacity(n);
            for v in &values {
                xs.push(if let types::Duckvalue::Float64(x) = v { *x } else { 0.0 });
            }
            column_types::Column::Float64(xs)
        }
        Some(K::I32) => {
            let mut xs: Vec<i32> = Vec::with_capacity(n);
            for v in &values {
                xs.push(if let types::Duckvalue::Int32(x) = v { *x } else { 0 });
            }
            column_types::Column::Int32(xs)
        }
        Some(K::Ts) => {
            let mut xs: Vec<i64> = Vec::with_capacity(n);
            for v in &values {
                xs.push(if let types::Duckvalue::Timestamp(x) = v { *x } else { 0 });
            }
            column_types::Column::Timestamp(xs)
        }
        Some(K::I8) => {
            let mut xs: Vec<i8> = Vec::with_capacity(n);
            for v in &values {
                xs.push(if let types::Duckvalue::Int8(x) = v { *x } else { 0 });
            }
            column_types::Column::Int8(xs)
        }
        Some(K::I16) => {
            let mut xs: Vec<i16> = Vec::with_capacity(n);
            for v in &values {
                xs.push(if let types::Duckvalue::Int16(x) = v { *x } else { 0 });
            }
            column_types::Column::Int16(xs)
        }
        Some(K::U8) => {
            let mut xs: Vec<u8> = Vec::with_capacity(n);
            for v in &values {
                xs.push(if let types::Duckvalue::Uint8(x) = v { *x } else { 0 });
            }
            column_types::Column::Uint8(xs)
        }
        Some(K::U16) => {
            let mut xs: Vec<u16> = Vec::with_capacity(n);
            for v in &values {
                xs.push(if let types::Duckvalue::Uint16(x) = v { *x } else { 0 });
            }
            column_types::Column::Uint16(xs)
        }
        Some(K::U32) => {
            let mut xs: Vec<u32> = Vec::with_capacity(n);
            for v in &values {
                xs.push(if let types::Duckvalue::Uint32(x) = v { *x } else { 0 });
            }
            column_types::Column::Uint32(xs)
        }
        Some(K::F32) => {
            let mut xs: Vec<f32> = Vec::with_capacity(n);
            for v in &values {
                xs.push(if let types::Duckvalue::Float32(x) = v { *x } else { 0.0 });
            }
            column_types::Column::Float32(xs)
        }
        Some(K::Date) => {
            let mut xs: Vec<i32> = Vec::with_capacity(n);
            for v in &values {
                xs.push(if let types::Duckvalue::Date(x) = v { *x } else { 0 });
            }
            column_types::Column::Date(xs)
        }
        Some(K::Time) => {
            let mut xs: Vec<i64> = Vec::with_capacity(n);
            for v in &values {
                xs.push(if let types::Duckvalue::Time(x) = v { *x } else { 0 });
            }
            column_types::Column::Time(xs)
        }
        Some(K::Tstz) => {
            let mut xs: Vec<i64> = Vec::with_capacity(n);
            for v in &values {
                xs.push(if let types::Duckvalue::Timestamptz(x) = v { *x } else { 0 });
            }
            column_types::Column::Timestamptz(xs)
        }
        Some(K::Decimal) => {
            let mut xs: Vec<column_types::Decimalvalue> = Vec::with_capacity(n);
            for v in &values {
                xs.push(match v {
                    types::Duckvalue::Decimal(d) => column_types::Decimalvalue {
                        lower: d.lower, upper: d.upper, width: d.width, scale: d.scale,
                    },
                    _ => column_types::Decimalvalue { lower: 0, upper: 0, width: 0, scale: 0 },
                });
            }
            column_types::Column::Decimal(xs)
        }
        Some(K::Interval) => {
            let mut xs: Vec<column_types::Intervalvalue> = Vec::with_capacity(n);
            for v in &values {
                xs.push(match v {
                    types::Duckvalue::Interval(d) => column_types::Intervalvalue {
                        months: d.months, days: d.days, micros: d.micros,
                    },
                    _ => column_types::Intervalvalue { months: 0, days: 0, micros: 0 },
                });
            }
            column_types::Column::Interval(xs)
        }
        Some(K::Uuid) => {
            let mut xs: Vec<column_types::Uuidvalue> = Vec::with_capacity(n);
            for v in &values {
                xs.push(match v {
                    types::Duckvalue::Uuid(d) => column_types::Uuidvalue { hi: d.hi, lo: d.lo },
                    _ => column_types::Uuidvalue { hi: 0, lo: 0 },
                });
            }
            column_types::Column::Uuid(xs)
        }
        Some(K::Text) => {
            let mut xs: Vec<String> = Vec::with_capacity(n);
            for v in values.into_iter() {
                xs.push(match v {
                    types::Duckvalue::Text(s) => s,
                    _ => String::new(),
                });
            }
            column_types::Column::Text(xs)
        }
        Some(K::Blob) => {
            let mut xs: Vec<Vec<u8>> = Vec::with_capacity(n);
            for v in values.into_iter() {
                xs.push(match v {
                    types::Duckvalue::Blob(b) => b,
                    _ => Vec::new(),
                });
            }
            column_types::Column::Blob(xs)
        }
        Some(K::Complex) => {
            let mut xs: Vec<column_types::Complexvalue> = Vec::with_capacity(n);
            for v in values.into_iter() {
                xs.push(match v {
                    types::Duckvalue::Complex(c) => column_types::Complexvalue {
                        type_expr: c.type_expr, json: c.json,
                    },
                    _ => column_types::Complexvalue {
                        type_expr: String::new(), json: String::new(),
                    },
                });
            }
            column_types::Column::Complex(xs)
        }
    };

    Ok(column_types::Colvec { data, validity, rows })
}

"#;

pub const DISPATCH_START: &'static str = r#"
impl callback_dispatch::Guest for {bridge_struct} {{
    // === HOT PATH (duckdb:extension@4.0.0 columnar dispatch) ===
    //
    // The major-4 contract replaced the row-major call_scalar_batch /
    // call_aggregate / (and added call_cast_col) with columnar
    // variants that cross the ABI as `list<colvec>`. Correctness-first
    // migration: convert columns -> rows on demand, route through the
    // row-major cold paths, then rebuild a colvec on the way out.
    //
    // #659 micro-opts on the lift/lower paths:
    //   * Opt 1: scalar-batch / cast paths skip the
    //     `Vec<Vec<Duckvalue>>` intermediate -- they materialize one
    //     row at a time via `materialize_row` / `colvec_get` (the
    //     aggregate path still uses `colvecs_to_rows` because its
    //     arm bodies iterate `rows` directly).
    //   * Opt 2: `values_to_colvec` fuses validity + type-sniff
    //     into a single pass and pre-allocates the typed `Vec<T>`
    //     from the captured arm-kind.
    //   * Opt 3: scalar-batch reuses a single per-row buffer across
    //     iterations -- the buffer's capacity is preserved by
    //     `materialize_row` (`std::mem::take` then re-grow to
    //     `args.len()`).
    //
    // The contract envisions bulk memcpy on fixed-width columns;
    // that is a future optimisation -- mobilitydb-style workloads
    // are dominated by per-row binary/text decode in the arm
    // bodies, so the savings here are on the lift/lower prologue
    // rather than the arm dispatch itself.

    fn call_scalar_batch_col(
        handle: u32,
        args: Vec<column_types::Colvec>,
        ctx: types::Invokeinfo,
    ) -> Result<column_types::Colvec, types::Duckerror> {{
        let n_rows = validate_colvec_rows(&args)?;
        let n_args = args.len();
        let base = ctx.rowindex.unwrap_or(0);
        let mut out: Vec<types::Duckvalue> = Vec::with_capacity(n_rows);
        // Pooled per-row buffer (#659 Opt 3). `materialize_row`
        // clears + re-grows on each iteration, preserving capacity
        // across rows; we mem::take it into the Guest call (which
        // consumes the Vec by value), then re-grow on the next
        // iteration. The per-row alloc is unavoidable as long as
        // call_scalar's WIT-derived signature takes
        // `args: Vec<Duckvalue>` by value -- the capacity hint at
        // least keeps the alloc right-sized.
        let mut row_buf: Vec<types::Duckvalue> = Vec::with_capacity(n_args);
        for i in 0..n_rows {{
            materialize_row(&args, i, &mut row_buf);
            let row_ctx = types::Invokeinfo {{
                rowindex: Some(base + i as u64),
                iswindow: ctx.iswindow,
            }};
            let row_args = core::mem::take(&mut row_buf);
            out.push(<Self as callback_dispatch::Guest>::call_scalar(handle, row_args, row_ctx)?);
        }}
        values_to_colvec(out)
    }}

    fn call_aggregate_col(
        handle: u32,
        args: Vec<column_types::Colvec>,
    ) -> Result<types::Duckvalue, types::Duckerror> {{
        let rows = colvecs_to_rows(&args)?;
        let arm_idx = "#;

pub const DISPATCH_AGGREGATE: &'static str = r#"
            .lock()
            .expect("aggregate handle mutex poisoned")
            .get(&handle)
            .copied()
            .ok_or_else(|| types::Duckerror::Internal(
                "unknown aggregate handle".into()
            ))?;
        match arm_idx {{
{aggregate_arms}            _ => Err(types::Duckerror::Internal(format!(
                "unknown aggregate arm index {{}}", arm_idx
            ))),
        }}
    }}

    fn call_cast_col(
        handle: u32,
        arg: column_types::Colvec,
    ) -> Result<column_types::Colvec, types::Duckerror> {{
        // #659 Opt 1: lift one cell at a time via `colvec_get`
        // rather than building the full `Vec<Duckvalue>` upfront.
        let n_rows = arg.rows as usize;
        let mut out: Vec<types::Duckvalue> = Vec::with_capacity(n_rows);
        for i in 0..n_rows {{
            let v = colvec_get(&arg, i);
            out.push(<Self as callback_dispatch::Guest>::call_cast(handle, v)?);
        }}
        values_to_colvec(out)
    }}

    // === COLD SINGLETON PATHS (row-major, duckdb:extension@4.0.0) ===

    fn call_scalar(
        handle: u32,
        args: Vec<types::Duckvalue>,
        _ctx: types::Invokeinfo,
    ) -> Result<types::Duckvalue, types::Duckerror> {{
        let arm_idx = "#;

pub const DISPATCH_SCALAR: &'static str = r#"
            .lock()
            .expect("scalar handle mutex poisoned")
            .get(&handle)
            .copied()
            .ok_or_else(|| types::Duckerror::Internal(
                "unknown scalar handle".into()
            ))?;
        // Default DuckDB null semantics: a NULL arg short-circuits
        // to NULL before the function runs. The base
        // `runtime.scalar-registry.register` API the codegen uses
        // here doesn't take a null-handling arm (that's
        // `runtime-ext.register-scalar-ex`), so DuckDB enforces
        // the propagate path engine-side. We defensively check
        // here too in case the host plumbs a NULL through.
        if args.iter().any(|v| matches!(v, types::Duckvalue::Null)) {{
            return Ok(types::Duckvalue::Null);
        }}
        match arm_idx {{
{scalar_arms}            _ => Err(types::Duckerror::Internal(format!(
                "unknown scalar arm index {{}}", arm_idx
            ))),
        }}
    }}

    fn call_table(
        handle: u32,
        args: Vec<types::Duckvalue>,
    ) -> Result<types::Resultset, types::Duckerror> {{
        let arm_idx = "#;

pub const DISPATCH_TABLE: &'static str = r#"
            .lock()
            .expect("table handle mutex poisoned")
            .get(&handle)
            .copied()
            .ok_or_else(|| types::Duckerror::Internal(
                "unknown table function handle".into()
            ))?;
        match arm_idx {{
{table_arms}            _ => Err(types::Duckerror::Internal(format!(
                "unknown table function arm index {{}}", arm_idx
            ))),
        }}
    }}

{pragma_arm}{cast_arm}}}
{window_arm}
"#;

pub const CAST_FORWARD: &'static str = r#"    fn call_cast(
        handle: u32,
        value: types::Duckvalue,
    ) -> Result<types::Duckvalue, types::Duckerror> {
        <Self as callback_dispatch::Guest>::call_scalar(
            handle,
            alloc::vec![value],
            types::Invokeinfo { rowindex: None, iswindow: false },
        )
    }
"#;

pub const CAST_UNWIRED: &'static str = r#"    fn call_cast(
        _handle: u32,
        _value: types::Duckvalue,
    ) -> Result<types::Duckvalue, types::Duckerror> {{
        Err(types::Duckerror::Unsupported(
            format!("{primary}: casts not wired (no cast_rewrites in IR)")
        ))
    }}
"#;

pub const EXPORT: &'static str = r#"
bindings::export!({bridge_struct} with_types_in bindings);
"#;

pub const ARM: &'static str = r#"            {arm_idx}usize => {{
{body}
            }}
"#;

pub const PRAGMA: &'static str = r#"    // #625: pragma dispatch placeholder. The
    // duckdb:extension@4.0.0 callback-dispatch surface
    // requires a call-pragma arm, but the codegen has no
    // substrate carrying pragma metadata yet --
    // shim-interface-core does not extract pragmas and the
    // interface DB schema has no `pragmas` table. Real
    // per-arm dispatch (parallel to `call_scalar` /
    // `call_aggregate`) lands once a shim registers its first
    // pragma; until then the host gets an Unsupported
    // diagnostic naming the primary shim and dispatch arm.
    // See `build_pragma_dispatch_impl` for the substrate
    // extension path.
    fn call_pragma(
        _handle: u32,
        _args: Vec<types::Duckvalue>,
    ) -> Result<Option<types::Duckvalue>, types::Duckerror> {{
        Err(types::Duckerror::Unsupported(format!(
            "{primary} pragma dispatch: not implemented (no pragmas registered by this bridge)"
        )))
    }}
"#;

pub const WINDOW_DISPATCH_START: &'static str = r#"
impl bindings::exports::duckdb::extension::aggregate_incr_dispatch::Guest for {bridge_struct} {{
    // #661: 4 state-machine arms stubbed -- the postgis pilot is
    // whole-partition compute (call_aggregate_window only). A
    // future incremental aggregate registration would replace each
    // body with a per-handle dispatch arm; the trait surface stays
    // the same.
    fn call_aggregate_init(
        _handle: u32,
    ) -> Result<u32, types::Duckerror> {{
        Err(types::Duckerror::Unsupported(format!(
            "{primary}: aggregate-incr init not wired (no incremental aggregates registered)"
        )))
    }}

    fn call_aggregate_update(
        _handle: u32,
        _state: u32,
        _rows: Vec<Vec<types::Duckvalue>>,
    ) -> Result<(), types::Duckerror> {{
        Err(types::Duckerror::Unsupported(format!(
            "{primary}: aggregate-incr update not wired"
        )))
    }}

    fn call_aggregate_combine(
        _handle: u32,
        _target: u32,
        _source: u32,
    ) -> Result<(), types::Duckerror> {{
        Err(types::Duckerror::Unsupported(format!(
            "{primary}: aggregate-incr combine not wired"
        )))
    }}

    fn call_aggregate_finalize(
        _handle: u32,
        _state: u32,
    ) -> Result<types::Duckvalue, types::Duckerror> {{
        Err(types::Duckerror::Unsupported(format!(
            "{primary}: aggregate-incr finalize not wired"
        )))
    }}

    fn call_aggregate_window(
        handle: u32,
        {partition_bind}: Vec<Vec<types::Duckvalue>>,
        {frame_bind}: bindings::exports::duckdb::extension::aggregate_incr_dispatch::WindowFrame,
    ) -> Result<types::Duckvalue, types::Duckerror> {{
        let arm_idx = "#;

pub const WINDOW_DISPATCH: &'static str = r#"
            .lock()
            .expect("window handle mutex poisoned")
            .get(&handle)
            .copied()
            .ok_or_else(|| types::Duckerror::Internal(
                "unknown window handle".into()
            ))?;
        match arm_idx {{
{window_arms}            _ => Err(types::Duckerror::Internal(format!(
                "unknown window arm index {{}}", arm_idx
            ))),
        }}
    }}
}}
"#;

pub const POSTGIS_HELPERS_BODY: &'static str = r#"
// ─── PostGIS WKB decoders ───

fn from_wkb(bytes: &[u8], name: &str) -> Result<Geometry, types::Duckerror> {
    Geometry::from_wkb(bytes).map_err(|e| types::Duckerror::Invalidargument(format!("{name}: {}", postgis_err_string(e))))
}

fn geog_from_wkb(bytes: &[u8], name: &str) -> Result<Geography, types::Duckerror> {
    Geography::from_wkb(bytes).map_err(|e| types::Duckerror::Invalidargument(format!("{name}: {}", postgis_err_string(e))))
}

fn postgis_err_string(e: PostgisError) -> String {
    match e {
        PostgisError::InvalidGeometry(s)
        | PostgisError::ParseError(s)
        | PostgisError::UnsupportedOperation(s)
        | PostgisError::NumericError(s)
        | PostgisError::SridMismatch(s)
        | PostgisError::General(s) => s,
    }
}
"#;

pub const RASTER_HELPERS: &'static str = r#"
// ─── PostGIS raster decoders ───

fn from_raster_binary(bytes: &[u8], name: &str) -> Result<Raster, types::Duckerror> {{
    bindings::{pkg_ns}::{pkg_name}::postgis_raster_types::from_binary(bytes)
        .map_err(|e| types::Duckerror::Invalidargument(format!("{{}}: {{}}", name, raster_err_string(e))))
}}

fn raster_err_string(e: RasterError) -> String {{
    match e {{
        RasterError::ParseError(s)
        | RasterError::OutOfBounds(s)
        | RasterError::TypeMismatch(s)
        | RasterError::General(s) => s,
    }}
}}
"#;

pub const TOPOLOGY_HELPERS: &'static str = r#"
// ─── PostGIS topology decoders ───

fn from_topology_bytes(bytes: &[u8], name: &str) -> Result<Topology, types::Duckerror> {{
    bindings::{pkg_ns}::{pkg_name}::postgis_topology_types::from_bytes(bytes)
        .map_err(|e| types::Duckerror::Invalidargument(format!("{{}}: {{}}", name, topology_err_string(e))))
}}

fn topology_err_string(e: TopologyError) -> String {{
    match e {{
        TopologyError::InvalidTopology(s) | TopologyError::General(s) => s,
        TopologyError::NodeNotFound(id) => format!("node not found: {{}}", id),
        TopologyError::EdgeNotFound(id) => format!("edge not found: {{}}", id),
        TopologyError::FaceNotFound(id) => format!("face not found: {{}}", id),
    }}
}}
"#;

pub const TUPLE_HELPERS_HEADER: &'static str = r#"
// ─── list<tuple<...>> param helpers ───
// One per unique tuple-element signature referenced by a wired
// dispatch arm. SQL passes a JSON-array of arrays as the TEXT/VARCHAR
// arg (e.g. `'[[1, 10], [20, 30]]'`); serde_json parses tuples
// as fixed-length JSON arrays so the upstream
// `Vec<(T1, T2, ...)>` binding round-trips directly.
"#;

pub const TUPLE_HELPER: &'static str = r#"fn parse_json_list_tuple_{suffix}(args: &[types::Duckvalue], idx: usize, name: &str) -> Result<Vec<{rust_tuple}>, types::Duckerror> {{
    let text = dv_text(args, idx, name)?;
    serde_json::from_str::<Vec<{rust_tuple}>>(text)
        .map_err(|e| types::Duckerror::Invalidargument(format!("{{name}}: arg {{idx}} must be JSON array of [{wit_label}] tuples ({{e}})")))
}}

"#;

pub const MIXED_HELPERS_HEADER: &'static str = r#"
// ─── #724 mixed-tuple list<tuple<primitive|record, ...>> helpers ───
"#;

pub const WIT_VALUE_HEADER: &'static str = r#"
// ─── Per-record wit-value marshaling helpers ───
// Records ride on `Duckvalue::Complex { type_expr, json }`.
// Decode parses `json` straight into UPSTREAM via
// serde_json::from_str (UPSTREAM derives serde derives via
// wit-bindgen's `additional_derives` arg above). Encode
// round-trips UPSTREAM → JSON → Complex carrier.
"#;

pub const ARG_WIT_VALUE: &'static str = r#"fn arg_witvalue_{snake}(
    args: &[types::Duckvalue],
    idx: usize,
    name: &str,
) -> Result<{upstream_path}, types::Duckerror> {{
    let cmplx = match args.get(idx) {{
        Some(types::Duckvalue::Complex(c)) => c,
        _ => return Err(types::Duckerror::Invalidargument(
            format!("{{name}}: arg {{idx}} must be COMPLEX (wit-value record)"))),
    }};
    serde_json::from_str::<{upstream_path}>(&cmplx.json)
        .map_err(|e| types::Duckerror::Invalidargument(
            format!("{{name}}: decode arg {{idx}}: {{}}", e)))
}}

"#;

pub const LIST_RECORD: &'static str = r#"fn parse_json_list_record_{snake}(
    args: &[types::Duckvalue],
    idx: usize,
    name: &str,
) -> Result<Vec<{upstream_path}>, types::Duckerror> {{
    let text = dv_text(args, idx, name)?;
    serde_json::from_str::<Vec<{upstream_path}>>(text)
        .map_err(|e| types::Duckerror::Invalidargument(
            format!("{{name}}: arg {{idx}} must be JSON array of {kebab} ({{e}})")))
}}

"#;

pub const LIST_LIST_RECORD: &'static str = r#"fn parse_json_list_list_record_{snake}(
    args: &[types::Duckvalue],
    idx: usize,
    name: &str,
) -> Result<Vec<Vec<{upstream_path}>>, types::Duckerror> {{
    let text = dv_text(args, idx, name)?;
    serde_json::from_str::<Vec<Vec<{upstream_path}>>>(text)
        .map_err(|e| types::Duckerror::Invalidargument(
            format!("{{name}}: arg {{idx}} must be JSON array of arrays of {kebab} ({{e}})")))
}}

"#;

pub const RET_WIT_VALUE: &'static str = r#"fn ret_to_witvalue_{snake}(
    upstream: {upstream_path},
) -> Result<types::Duckvalue, types::Duckerror> {{
    let json = serde_json::to_string(&upstream)
        .map_err(|e| types::Duckerror::Internal(format!("encode {snake} wit-value: {{}}", e)))?;
    Ok(types::Duckvalue::Complex(types::Complexvalue {{
        type_expr: "{symbolic}".into(),
        json,
    }}))
}}

"#;

} // verus!
