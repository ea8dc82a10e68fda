//! The texts that the source of a bridge is made of. A name in braces is a hole.

use vstd::prelude::*;

verus! {

pub const HEADER: &'static str = r#"// === GENERATED by sqlink-shim-codegen (target=wasm-component)  do not edit by hand ===

"#;

pub const PRELUDE: &'static str = r#"//! Generated by sqlink-shim-codegen (Phase 3).
//!
//! Bridges {primary} onto sqlite:extension/* as a wasm
//! component. Scalars / aggregates / UDTFs are dispatched by a
//! match arm generated for each interface-DB entry whose WIT
//! signature the codegen recognises; everything else returns the
//! Phase 3 stub error so the surface stays loadable.

#![allow(unused_imports, dead_code)]

extern crate alloc;

use alloc::format;
use alloc::string::{{String, ToString}};
use alloc::vec::Vec;
use core::cell::RefCell;
use std::collections::HashMap;

mod bindings {{
    wit_bindgen::generate!({{
        path: "wit",
        world: "bridge",
        generate_all,
        // Phase E: derive serde::Serialize + serde::Deserialize on
        // generated record types so ciborium can ferry them
        // through the `canon:cbor` profile. The codec bodies
        // emitted on SerdeOpsGuest below call
        // ciborium::ser::into_writer + ciborium::de::from_reader
        // on the wit-bindgen-generated types directly.
        additional_derives: [serde::Serialize, serde::Deserialize],
        // Types that can't (or shouldn't) derive serde:
        //   - sqlite:extension/* contract types (records like
        //     Manifest reference flags/variant types that don't
        //     ship serde impls).
        //   - Helper-component records (sfcgal, proj/dbscan, ...)
        //     aren't the bridge's serde-ops surface.
        //   - Primary-shim variants + flags (postgis-error etc.)
        //     don't auto-derive serde.
        additional_derives_ignore: [
{derives_ignore_lits}        ],
    }});
}}

use bindings::exports::sqlite::extension::aggregate_function::Guest as AggregateGuest;
use bindings::exports::sqlite::extension::metadata::{{
    AggregateFunctionSpec, Guest as MetadataGuest, Manifest, ScalarFunctionSpec, VtabSpec,
}};
use bindings::exports::sqlite::extension::scalar_function::Guest as ScalarFunctionGuest;
use bindings::exports::sqlite::extension::vtab::{{
    ConstraintUsage, Guest as VtabGuest, IndexInfo, IndexPlan, VtabRow,
}};
use bindings::sqlite::extension::types::{{FunctionFlags, SqlValue}};

// Imported `postgis:wasm/*` interfaces. Aliased to match the
// hand-written bridge's naming so emitted dispatch arms look the
// same shape. Only aliases referenced by emitted arms appear here
// so unused-import warnings stay clean.
"#;

pub const USE_GEOMETRY: &'static str = "use bindings::{pkg_ns}::{pkg_name}::postgis_types::{{Geography, Geometry, PostgisError}};\n";

pub const USE_RASTER: &'static str = "use bindings::{pkg_ns}::{pkg_name}::postgis_raster_types::{{Raster, RasterError}};\n";

pub const USE_TOPOLOGY: &'static str = "use bindings::{pkg_ns}::{pkg_name}::postgis_topology_types::{{Topology, TopologyError}};\n";

pub const WINDOW_STATE: &'static str = r#"
    /// #616 Phase 1: per-context buffered partition rows
    /// for window functions. Step() pushes each row's args;
    /// value() lazily computes on first call (caching the
    /// per-row result list) then walks a per-context cursor
    /// emitting labels[cursor] per row. inverse() no-ops
    /// (whole-partition compute is frame-invariant — DD2 in
    /// PLAN-window-substrate.md). finalize() drops state.
    static WINDOW_STATE: RefCell<HashMap<u64, WindowContext>> =
        RefCell::new(HashMap::new());"#;

pub const WINDOW_HELPERS: &'static str = r#"
/// #616 Phase 1: per-window-context state. `rows` holds
/// each row's incoming SqlValue args verbatim; `results`
/// caches the upstream cluster function's per-row output
/// after the first value() call; `cursor` walks one-per-
/// value() emission.
#[derive(Default)]
struct WindowContext {
    rows: Vec<Vec<SqlValue>>,
    results: Option<Vec<SqlValue>>,
    cursor: usize,
}

fn push_window_row(context_id: u64, args: Vec<SqlValue>) {
    WINDOW_STATE.with(|m| {
        m.borrow_mut()
            .entry(context_id)
            .or_default()
            .rows
            .push(args);
    });
}

/// Pull the buffered partition rows from the per-context
/// state without removing the entry (`value()` keeps reading
/// `results`; `finalize()` drops the whole entry).
fn drain_window_rows(context_id: u64) -> Vec<Vec<SqlValue>> {
    WINDOW_STATE.with(|m| {
        let mut g = m.borrow_mut();
        g.get_mut(&context_id)
            .map(|c| core::mem::take(&mut c.rows))
            .unwrap_or_default()
    })
}

/// Cache the computed per-row results on the per-context
/// state (first value() call writes; subsequent reads).
fn set_window_results(context_id: u64, results: Vec<SqlValue>) {
    WINDOW_STATE.with(|m| {
        let mut g = m.borrow_mut();
        let entry = g.entry(context_id).or_default();
        entry.results = Some(results);
    });
}

/// Read the cached per-row results without consuming. Returns
/// `None` when the cache hasn't been populated yet (caller
/// recomputes via the per-func helper).
fn window_results_cached(context_id: u64) -> Option<Vec<SqlValue>> {
    WINDOW_STATE.with(|m| {
        m.borrow().get(&context_id)
            .and_then(|c| c.results.clone())
    })
}

/// Advance the per-context cursor and return the previous
/// value (SQLite walks `value()` left-to-right per the
/// window-function ABI; the cursor counts rows already
/// emitted from the partition).
fn bump_window_cursor(context_id: u64) -> usize {
    WINDOW_STATE.with(|m| {
        let mut g = m.borrow_mut();
        let entry = g.entry(context_id).or_default();
        let i = entry.cursor;
        entry.cursor += 1;
        i
    })
}

fn drop_window_state(context_id: u64) {
    WINDOW_STATE.with(|m| {
        m.borrow_mut().remove(&context_id);
    });
}
"#;

pub const WIT_VALUE_STATE: &'static str = r#"
    /// #607 Phase 1: parallel accumulator for record-typed
    /// aggregates (mobilitydb temporal-type aggregates).  Holds the
    /// per-row `WitValuePayload` (canon-CBOR bytes + symbolic +
    /// type-id); finalize iterates and decodes each via the per-
    /// record codec helper before invoking the upstream aggregator.
    static AGG_WITVALUE_STATE: RefCell<HashMap<u64, Vec<bindings::sqlite::extension::types::WitValuePayload>>> =
        RefCell::new(HashMap::new());"#;

pub const WIT_VALUE_STATE_HELPERS: &'static str = r#"
/// #607 Phase 1: record-typed aggregate accumulator push.
/// Mirrors `push_geom_state` / `push_raster_state` but stores
/// the per-row `WitValuePayload` (CBOR bytes + type id) rather
/// than a raw blob, since record-typed aggregates need the
/// per-record codec at finalize time rather than `from_wkb` /
/// `from_raster_binary`.
fn push_witvalue_state(context_id: u64, payload: bindings::sqlite::extension::types::WitValuePayload) {
    AGG_WITVALUE_STATE.with(|m| {
        m.borrow_mut().entry(context_id).or_default().push(payload);
    });
}

fn take_witvalue_state(context_id: u64) -> Vec<bindings::sqlite::extension::types::WitValuePayload> {
    AGG_WITVALUE_STATE.with(|m| {
        m.borrow_mut().remove(&context_id).unwrap_or_default()
    })
}
"#;

pub const BODY: &'static str = r#"const BRIDGE_NAME: &str = "{crate_name}";

/// Marker for functions not yet covered by Phase 3's dispatch
/// registry. The host's caller surfaces this back to the user
/// verbatim, so the work item ("widen registry") is
/// self-documenting from the error string.
fn stubbed(kind: &str, func_id: u64) -> String {{
    format!(
        "{{BRIDGE_NAME}}: {{kind}} func_id={{func_id}} is stubbed (no WIT signature classification)",
        BRIDGE_NAME = BRIDGE_NAME,
        kind = kind,
        func_id = func_id,
    )
}}

// ── Argument-unpack helpers ──
//
// Mirror the hand-written `extensions/postgis-bridge/src/lib.rs`
// versions so dispatch arms emitted here look identical to the
// oracle. Each returns `Err(String)` shaped like
// "{{name}}: arg {{idx}} must be TYPE" so the SQL-side error
// surface is consistent.

fn arg_text<'a>(args: &'a [SqlValue], idx: usize, name: &str) -> Result<&'a str, String> {{
    match args.get(idx) {{
        Some(SqlValue::Text(s)) => Ok(s.as_str()),
        _ => Err(format!("{{name}}: arg {{idx}} must be TEXT")),
    }}
}}

fn arg_blob<'a>(args: &'a [SqlValue], idx: usize, name: &str) -> Result<&'a [u8], String> {{
    match args.get(idx) {{
        Some(SqlValue::Blob(b)) => Ok(b.as_slice()),
        // Geometry that arrived as text is accepted as raw bytes
        // for parity with the hand-written bridge.
        Some(SqlValue::Text(s)) => Ok(s.as_bytes()),
        _ => Err(format!("{{name}}: arg {{idx}} must be BLOB")),
    }}
}}

fn arg_f64(args: &[SqlValue], idx: usize, name: &str) -> Result<f64, String> {{
    match args.get(idx) {{
        Some(SqlValue::Real(r)) => Ok(*r),
        Some(SqlValue::Integer(i)) => Ok(*i as f64),
        _ => Err(format!("{{name}}: arg {{idx}} must be REAL")),
    }}
}}

fn arg_i64(args: &[SqlValue], idx: usize, name: &str) -> Result<i64, String> {{
    match args.get(idx) {{
        Some(SqlValue::Integer(i)) => Ok(*i),
        Some(SqlValue::Real(r)) => Ok(*r as i64),
        _ => Err(format!("{{name}}: arg {{idx}} must be INTEGER")),
    }}
}}

/// Phase E generic error-formatter for fallible WIT-side calls.
/// The dispatch arm's `.map_err(|e| format!(\"{{name}}: {{}}\", shim_err_string(e)))?`
/// chain uses this for every shim regardless of error-type shape
/// (postgis-error, temporal-error, ...). Per-shim pretty-printers
/// (`postgis_err_string` for postgis) can still be called by
/// hand-written helpers; the dispatch arms uniformly use the
/// Debug-based formatter so codegen stays shim-agnostic.
#[allow(dead_code)]
fn shim_err_string<E: core::fmt::Debug>(e: E) -> String {{
    format!("{{:?}}", e)
}}

// ── W2 (#542): primitive `list<X>` param helpers ──
//
// Each `ParamShape::ListPrim(elem)` dispatch arm calls one of
// these `parse_json_list_<T>` helpers. The SQL caller passes a
// JSON-array literal in the TEXT arg (e.g.
// `tfloat_at_values(seq, '[1.0, 2.0, 3.0]')`); the helper
// decodes via serde_json into a `Vec<T>` which the arm then
// passes to the WIT function as `&[T]`.
//
// Pragmatic choice over the wit-value-payload path: SQL users
// already know JSON; no per-shape codec registry is required for
// primitives. Complex-element lists (records, spans, geometry
// resource) still need the wit-value codec path — see plan
// doc W2.6 for the deferral rationale.

#[allow(dead_code)]
fn parse_json_list_f64(args: &[SqlValue], idx: usize, name: &str) -> Result<Vec<f64>, String> {{
    let text = arg_text(args, idx, name)?;
    serde_json::from_str::<Vec<f64>>(text)
        .map_err(|e| format!("{{name}}: arg {{idx}} must be JSON array of f64 ({{e}})"))
}}

#[allow(dead_code)]
fn parse_json_list_i32(args: &[SqlValue], idx: usize, name: &str) -> Result<Vec<i32>, String> {{
    let text = arg_text(args, idx, name)?;
    serde_json::from_str::<Vec<i32>>(text)
        .map_err(|e| format!("{{name}}: arg {{idx}} must be JSON array of s32 ({{e}})"))
}}

#[allow(dead_code)]
fn parse_json_list_i64(args: &[SqlValue], idx: usize, name: &str) -> Result<Vec<i64>, String> {{
    let text = arg_text(args, idx, name)?;
    serde_json::from_str::<Vec<i64>>(text)
        .map_err(|e| format!("{{name}}: arg {{idx}} must be JSON array of s64 ({{e}})"))
}}

#[allow(dead_code)]
fn parse_json_list_u32(args: &[SqlValue], idx: usize, name: &str) -> Result<Vec<u32>, String> {{
    let text = arg_text(args, idx, name)?;
    serde_json::from_str::<Vec<u32>>(text)
        .map_err(|e| format!("{{name}}: arg {{idx}} must be JSON array of u32 ({{e}})"))
}}

#[allow(dead_code)]
fn parse_json_list_u64(args: &[SqlValue], idx: usize, name: &str) -> Result<Vec<u64>, String> {{
    let text = arg_text(args, idx, name)?;
    serde_json::from_str::<Vec<u64>>(text)
        .map_err(|e| format!("{{name}}: arg {{idx}} must be JSON array of u64 ({{e}})"))
}}

#[allow(dead_code)]
fn parse_json_list_u8(args: &[SqlValue], idx: usize, name: &str) -> Result<Vec<u8>, String> {{
    let text = arg_text(args, idx, name)?;
    serde_json::from_str::<Vec<u8>>(text)
        .map_err(|e| format!("{{name}}: arg {{idx}} must be JSON array of u8 ({{e}})"))
}}

#[allow(dead_code)]
fn parse_json_list_bool(args: &[SqlValue], idx: usize, name: &str) -> Result<Vec<bool>, String> {{
    let text = arg_text(args, idx, name)?;
    serde_json::from_str::<Vec<bool>>(text)
        .map_err(|e| format!("{{name}}: arg {{idx}} must be JSON array of bool ({{e}})"))
}}

#[allow(dead_code)]
fn parse_json_list_string(args: &[SqlValue], idx: usize, name: &str) -> Result<Vec<String>, String> {{
    let text = arg_text(args, idx, name)?;
    serde_json::from_str::<Vec<String>>(text)
        .map_err(|e| format!("{{name}}: arg {{idx}} must be JSON array of string ({{e}})"))
}}
{TUPLE_LIST_HELPERS}{POSTGIS_HELPERS}{FORCE_LINK_BLOCK}

// ── Aggregate state ──
//
// Per-context map of accumulated WKB blobs. Phase 3 aggregates
// (st_union, st_collect, st_extent, ...) collect input
// geometries in the `step` call and replay them at `finalize`
// time as `list<borrow<geometry>>` to the WIT-side aggregate
// function. The wasm component is single-threaded so a
// thread_local!{{}} RefCell is the simplest correct shape.

thread_local! {{
    static AGG_STATE: RefCell<HashMap<u64, Vec<Vec<u8>>>> =
        RefCell::new(HashMap::new());
    /// #548 (W3.2): parallel accumulator for raster aggregates
    /// (`st_rast_union_aggregate`). The two maps are independent so
    /// concurrent geom + raster aggregates on the same connection
    /// don't share state.
    static AGG_RASTER_STATE: RefCell<HashMap<u64, Vec<Vec<u8>>>> =
        RefCell::new(HashMap::new());{WITVALUE_AGG_STATE_DECL}{WINDOW_STATE_DECL}
    /// Round 2: per-context constant args for aggregates that
    /// take extra params beyond the streaming geometry
    /// (`st_clusterwithin(geom, distance)` and friends).
    /// First-step writer; subsequent steps validate equality.
    static AGG_EXTRAS: RefCell<HashMap<u64, Vec<SqlValue>>> =
        RefCell::new(HashMap::new());
}}

fn push_geom_state(context_id: u64, blob: Vec<u8>) {{
    AGG_STATE.with(|m| {{
        m.borrow_mut().entry(context_id).or_default().push(blob);
    }});
}}

fn take_geom_state(context_id: u64) -> Vec<Vec<u8>> {{
    AGG_STATE.with(|m| {{
        m.borrow_mut().remove(&context_id).unwrap_or_default()
    }})
}}

fn push_raster_state(context_id: u64, blob: Vec<u8>) {{
    AGG_RASTER_STATE.with(|m| {{
        m.borrow_mut().entry(context_id).or_default().push(blob);
    }});
}}

fn take_raster_state(context_id: u64) -> Vec<Vec<u8>> {{
    AGG_RASTER_STATE.with(|m| {{
        m.borrow_mut().remove(&context_id).unwrap_or_default()
    }})
}}
{WITVALUE_AGG_STATE_HELPERS}{WINDOW_STATE_HELPERS}{WINDOW_COMPUTE_HELPERS}
/// Round 2: store-or-validate the constant extras for an
/// aggregate. On the first step we just record them; on
/// subsequent steps we validate that the constants haven't
/// changed (PostgreSQL semantics: constant args MUST be uniform
/// across rows of a single aggregate invocation).
fn set_or_validate_extras(
    context_id: u64,
    extras: Vec<SqlValue>,
    name: &str,
) -> Result<(), String> {{
    AGG_EXTRAS.with(|m| {{
        let mut m = m.borrow_mut();
        if let Some(existing) = m.get(&context_id) {{
            if !sqlvalues_eq(existing, &extras) {{
                return Err(format!(
                    "{{name}}: aggregate constant args drifted between rows",
                    name = name,
                ));
            }}
            Ok(())
        }} else {{
            m.insert(context_id, extras);
            Ok(())
        }}
    }})
}}

fn take_extras_state(context_id: u64) -> Vec<SqlValue> {{
    AGG_EXTRAS.with(|m| m.borrow_mut().remove(&context_id).unwrap_or_default())
}}

fn sqlvalues_eq(a: &[SqlValue], b: &[SqlValue]) -> bool {{
    if a.len() != b.len() {{
        return false;
    }}
    a.iter().zip(b.iter()).all(|(x, y)| match (x, y) {{
        (SqlValue::Null, SqlValue::Null) => true,
        (SqlValue::Integer(p), SqlValue::Integer(q)) => p == q,
        (SqlValue::Real(p), SqlValue::Real(q)) => p == q,
        (SqlValue::Text(p), SqlValue::Text(q)) => p == q,
        (SqlValue::Blob(p), SqlValue::Blob(q)) => p == q,
        _ => false,
    }})
}}

// ── UDTF state ──
//
// Per-cursor materialised rowset. UDTFs materialise the full row
// list at `filter` time and stream it out via `next` / `column`.
// Task #532: each row is a per-column `Vec<SqlValue>` so record-row
// UDTFs (mobilitydb temporal-join-float etc.) can return one
// SqlValue per visible column. Single-column UDTFs (postgis
// st_dump and friends) emit a 1-element Vec wrapping the row's
// single SqlValue::Blob, so the SingleGeom path stays uniform.

thread_local! {{
    static UDTF_STATE: RefCell<HashMap<u64, UdtfCursor>> =
        RefCell::new(HashMap::new());
}}

struct UdtfCursor {{
    rows: Vec<Vec<SqlValue>>,
    idx: usize,
}}

struct {bridge_struct};

"#;

pub const EXPORT: &'static str = "bindings::export!({bridge_struct} with_types_in bindings);\n";

pub const ARM: &'static str = r#"            {id} => {{
{body}
            }}
"#;

pub const SCALAR_IMPL: &'static str = r#"
impl ScalarFunctionGuest for {bridge_struct} {{
    fn call(func_id: u64, args: Vec<SqlValue>) -> Result<SqlValue, String> {{
        // SQL-style null propagation. Functions whose NULL inputs
        // are MEANINGFUL would need to opt out; PostGIS scalars
        // are uniformly null-propagating in practice.
        if args.iter().any(|v| matches!(v, SqlValue::Null)) {{
            return Ok(SqlValue::Null);
        }}
        match func_id {{
{arms}            _ => Err(stubbed("scalar-function", func_id)),
        }}
    }}
}}

"#;

pub const WINDOW_STEP_ARM: &'static str = r#"            {id} => {{
                push_window_row(context_id, args);
                Ok(())
            }}
"#;

pub const WINDOW_VALUE_ARM: &'static str = r#"            {id} => {{
                // First value() call materialises the cached results;
                // subsequent calls read from cache and bump cursor.
                if window_results_cached(context_id).is_none() {{
                    let rows = drain_window_rows(context_id);
                    let results = {compute_fn}(&rows)?;
                    set_window_results(context_id, results);
                }}
                let i = bump_window_cursor(context_id);
                let cached = window_results_cached(context_id).unwrap_or_default();
                Ok(cached.get(i).cloned().unwrap_or(SqlValue::Null))
            }}
"#;

pub const WINDOW_INVERSE_ARM: &'static str = "            {id} => {{ Ok(()) }} // whole-partition compute: inverse is a no-op\n";

pub const WINDOW_FINALIZE_ARM: &'static str = r#"            {id} => {{
                drop_window_state(context_id);
                Ok(SqlValue::Null)
            }}
"#;

pub const AGGREGATE_IMPL: &'static str = r#"impl AggregateGuest for {bridge_struct} {{
    fn step(func_id: u64, context_id: u64, args: Vec<SqlValue>) -> Result<(), String> {{
        // Null-row contributions are skipped (SQL aggregate semantics).
        if args.iter().any(|v| matches!(v, SqlValue::Null)) {{
            return Ok(());
        }}
        match func_id {{
{step_arms}            _ => Err(stubbed("aggregate-function step", func_id)),
        }}
    }}
    fn finalize(func_id: u64, context_id: u64) -> Result<SqlValue, String> {{
        match func_id {{
{final_arms}            _ => Err(stubbed("aggregate-function finalize", func_id)),
        }}
    }}
    fn value(func_id: u64, context_id: u64) -> Result<SqlValue, String> {{
        // Bind to a `_` shadow so this compiles warning-clean when
        // no window arms reference context_id (mobilitydb has 0
        // window functions; the match arm list is empty).
        let _ = context_id;
        match func_id {{
{value_arms}            _ => Err(stubbed("aggregate-function value (window mode not wired)", func_id)),
        }}
    }}
    fn inverse(func_id: u64, context_id: u64, _args: Vec<SqlValue>) -> Result<(), String> {{
        // Whole-partition window functions (DD2 in
        // PLAN-window-substrate.md) are frame-invariant; inverse is
        // a no-op. Non-window aggregates never reach this path
        // (sqlite only calls inverse on window-mode aggregates).
        let _ = context_id;
        match func_id {{
{inverse_arms}            _ => Err(stubbed("aggregate-function inverse (window mode not wired)", func_id)),
        }}
    }}
}}

"#;

pub const EXTRA_F64: &'static str = "    let extra{j} = arg_f64(&rows[0], {arg_index}, \"{name}\")?;\n";

pub const EXTRA_S32: &'static str = "    let extra{j} = arg_i64(&rows[0], {arg_index}, \"{name}\")? as i32;\n";

pub const EXTRA_S64: &'static str = "    let extra{j} = arg_i64(&rows[0], {arg_index}, \"{name}\")?;\n";

pub const EXTRA_U32: &'static str = "    let extra{j} = arg_i64(&rows[0], {arg_index}, \"{name}\")? as u32;\n";

pub const EXTRA_U64: &'static str = "    let extra{j} = arg_i64(&rows[0], {arg_index}, \"{name}\")? as u64;\n";

pub const EXTRA_BOOL: &'static str = "    let extra{j} = arg_i64(&rows[0], {arg_index}, \"{name}\")? != 0;\n";

pub const EXTRA_TEXT: &'static str = "    let extra{j} = arg_text(&rows[0], {arg_index}, \"{name}\")?.to_string();\n";

pub const EXTRA_BLOB: &'static str = "    let extra{j} = arg_blob(&rows[0], {arg_index}, \"{name}\")?.to_vec();\n";

pub const EXTRA_UNWIRED: &'static str = "// ERROR: window {name} has unsupported extra arg shape {shape}\n";

pub const MAP_ERR: &'static str = ".map_err(|e| format!(\"{name}: {{}}\", postgis_err_string(e)))?";

pub const LABELS_OPTION_U32: &'static str = r#"    Ok(labels
        .into_iter()
        .map(|opt| match opt {
            Some(id) => SqlValue::Integer(id as i64),
            None => SqlValue::Null,
        })
        .collect())
"#;

pub const LABELS_U32: &'static str = r#"    Ok(labels
        .into_iter()
        .map(|id| SqlValue::Integer(id as i64))
        .collect())
"#;

pub const LABELS_GEOM: &'static str = r#"    Ok(labels
        .into_iter()
        .map(|g| SqlValue::Blob(g.as_wkb()))
        .collect())
"#;

pub const COMPUTE_WINDOW: &'static str = r#"/// #616 Phase 1: per-partition compute for `{name}`
/// (func_id {id}). The upstream returns the full per-row
/// result list in input order; we marshal each into the
/// classified SqlValue shape ({returns_dbg}). Called once
/// per partition (first value() invocation); subsequent
/// value() calls read from cache.
fn {compute_fn}(rows: &[Vec<SqlValue>]) -> Result<Vec<SqlValue>, String> {{
    if rows.is_empty() {{
        return Ok(Vec::new());
    }}
    let mut geoms: Vec<Geometry> = Vec::with_capacity(rows.len());
    for row in rows {{
        let bytes = arg_blob(row, 0, "{name}")?;
        geoms.push(
            Geometry::from_wkb(bytes)
                .map_err(|e| format!("{name}: row decode: {{}}", postgis_err_string(e)))?,
        );
    }}
{extras}    let geom_refs: Vec<&Geometry> = geoms.iter().collect();
    let labels = {module}::{func}(&geom_refs{call_extras_lit}){map_err};
{row_to_sqlvalue}}}

"#;

pub const CONNECT_ARM: &'static str = "            {id} => Ok({schema_lit}.to_string()),\n";

pub const COLUMN_ARM: &'static str = r#"            {id} => {{
                if (_col as usize) < {visible_count} {{
                    Ok(row_cols.get(_col as usize).cloned().unwrap_or(SqlValue::Null))
                }} else {{ Ok(SqlValue::Null) }}
            }}
"#;

pub const VTAB_IMPL: &'static str = r#"impl VtabGuest for {bridge_struct} {{
    fn create(
        vtab_id: u64,
        instance_id: u64,
        db_name: String,
        table_name: String,
        args: Vec<String>,
    ) -> Result<String, String> {{
        // Eponymous UDTFs see only connect(); fall through.
        Self::connect(vtab_id, instance_id, db_name, table_name, args)
    }}
    fn connect(
        vtab_id: u64,
        _instance_id: u64,
        _db_name: String,
        _table_name: String,
        _args: Vec<String>,
    ) -> Result<String, String> {{
        match vtab_id {{
{connect_arms}            _ => Err(stubbed("vtab connect", vtab_id)),
        }}
    }}
    fn destroy(_vtab_id: u64, _instance_id: u64) -> Result<(), String> {{
        Ok(())
    }}
    fn disconnect(_vtab_id: u64, _instance_id: u64) -> Result<(), String> {{
        Ok(())
    }}
    fn best_index(
        _vtab_id: u64,
        _instance_id: u64,
        info: IndexInfo,
    ) -> Result<IndexPlan, String> {{
        // Task #531: HIDDEN-column constraints back the
        // table-valued-function arg form `f(g1, g2, ...)`. SQLite
        // assembles the SQL-side argv into xFilter's `args` array
        // in the order each usable constraint's `argv_index`
        // names; an `argv_index` of 0 means "ignore this
        // constraint" — leaving the function form unable to pass
        // its arguments through. Assign each usable EQ constraint
        // a unique 1-based slot and mark `omit: true` so SQLite
        // doesn't re-check the constraint after filter sees it.
        let mut next_argv_idx: i32 = 1;
        let constraint_usage = info.constraints.iter()
            .map(|c| {{
                if c.usable {{
                    let idx = next_argv_idx;
                    next_argv_idx += 1;
                    ConstraintUsage {{ argv_index: idx, omit: true }}
                }} else {{
                    ConstraintUsage {{ argv_index: 0, omit: false }}
                }}
            }})
            .collect();
        Ok(IndexPlan {{
            constraint_usage,
            idx_num: 0,
            idx_str: None,
            estimated_cost: 1.0,
            estimated_rows: 1,
            orderby_consumed: false,
        }})
    }}
    fn open(_vtab_id: u64, _instance_id: u64, cursor_id: u64) -> Result<(), String> {{
        UDTF_STATE.with(|m| {{
            m.borrow_mut().insert(cursor_id, UdtfCursor {{ rows: Vec::new(), idx: 0 }});
        }});
        Ok(())
    }}
    fn close(_vtab_id: u64, cursor_id: u64) -> Result<(), String> {{
        UDTF_STATE.with(|m| {{
            m.borrow_mut().remove(&cursor_id);
        }});
        Ok(())
    }}
    fn filter(
        vtab_id: u64,
        cursor_id: u64,
        _idx_num: i32,
        _idx_str: Option<String>,
        args: Vec<SqlValue>,
    ) -> Result<(), String> {{
        match vtab_id {{
{filter_arms}            _ => Err(stubbed("vtab filter", vtab_id)),
        }}
    }}
    fn next(_vtab_id: u64, cursor_id: u64) -> Result<(), String> {{
        UDTF_STATE.with(|m| {{
            if let Some(c) = m.borrow_mut().get_mut(&cursor_id) {{
                c.idx += 1;
            }}
        }});
        Ok(())
    }}
    fn eof(_vtab_id: u64, cursor_id: u64) -> bool {{
        UDTF_STATE.with(|m| {{
            m.borrow().get(&cursor_id)
                .map(|c| c.idx >= c.rows.len())
                .unwrap_or(true)
        }})
    }}
    fn column(vtab_id: u64, cursor_id: u64, _col: i32) -> Result<SqlValue, String> {{
        let row_cols: Vec<SqlValue> = UDTF_STATE.with(|m| {{
            m.borrow().get(&cursor_id)
                .and_then(|c| c.rows.get(c.idx).cloned())
                .ok_or_else(|| stubbed("vtab column out of range", vtab_id))
        }})?;
        match vtab_id {{
{column_arms}            _ => Err(stubbed("vtab column", vtab_id)),
        }}
    }}
    fn rowid(_vtab_id: u64, cursor_id: u64) -> Result<i64, String> {{
        Ok(UDTF_STATE.with(|m| {{
            m.borrow().get(&cursor_id).map(|c| c.idx as i64).unwrap_or(0)
        }}))
    }}
    fn fetch_batch(
        vtab_id: u64,
        _cursor_id: u64,
        _max_rows: u32,
    ) -> Result<Vec<VtabRow>, String> {{
        Err(stubbed("vtab fetch-batch (use per-row path)", vtab_id))
    }}
}}

"#;

pub const TABLE_GEOM: &'static str = "{i}let arg{idx} = from_wkb(arg_blob(&args, {idx}, \"{name}\")?, \"{name}\")?;\n";

pub const TABLE_F64: &'static str = "{i}let arg{idx} = arg_f64(&args, {idx}, \"{name}\")?;\n";

pub const TABLE_S32: &'static str = "{i}let arg{idx} = arg_i64(&args, {idx}, \"{name}\")? as i32;\n";

pub const TABLE_S64: &'static str = "{i}let arg{idx} = arg_i64(&args, {idx}, \"{name}\")?;\n";

pub const TABLE_U32: &'static str = "{i}let arg{idx} = arg_i64(&args, {idx}, \"{name}\")? as u32;\n";

pub const TABLE_U64: &'static str = "{i}let arg{idx} = arg_i64(&args, {idx}, \"{name}\")? as u64;\n";

pub const TABLE_BOOL: &'static str = "{i}let arg{idx} = arg_i64(&args, {idx}, \"{name}\")? != 0;\n";

pub const TABLE_BLOB: &'static str = "{i}let arg{idx} = arg_blob(&args, {idx}, \"{name}\")?;\n";

pub const TABLE_WIT_VALUE: &'static str = "{i}let arg{idx} = arg_witvalue_{snake}(&args, {idx}, \"{name}\")?;\n";

pub const TABLE_LIST_RECORD: &'static str = "{i}let arg{idx} = parse_json_list_record_{snake}(&args, {idx}, \"{name}\")?;\n";

pub const TABLE_UNWIRED: &'static str = "{i}Err(format!(\"{name}: UDTF param shape not yet wired ({shape_dbg})\"))";

pub const TABLE_CALL_FALLIBLE: &'static str = r#"{i}let __upstream = {module}::{func}({call_args_str})
{i}    .map_err(|e| format!("{name}: {{}}", shim_err_string(e)))?;
"#;

pub const TABLE_CALL: &'static str = "{i}let __upstream = {module}::{func}({call_args_str});\n";

pub const TABLE_STORE: &'static str = r#"{i}UDTF_STATE.with(|m| {{
{i}    if let Some(c) = m.borrow_mut().get_mut(&cursor_id) {{
{i}        c.rows = rows;
{i}        c.idx = 0;
{i}    }}
{i}}});
{i}Ok(())"#;

pub const ROWS_GEOM: &'static str = r#"{i}let rows: Vec<Vec<SqlValue>> = __upstream
{i}    .iter()
{i}    .map(|g| alloc::vec![SqlValue::Blob(g.as_wkb())])
{i}    .collect();
"#;

pub const ROWS_PRIMITIVE: &'static str = r#"{i}let rows: Vec<Vec<SqlValue>> = __upstream
{i}    .iter()
{i}    .map(|v| alloc::vec![{cell}])
{i}    .collect();
"#;

pub const FIELD_INT: &'static str = "SqlValue::Integer(__row.{fsnake} as i64)";

pub const FIELD_REAL: &'static str = "SqlValue::Real(__row.{fsnake} as f64)";

pub const FIELD_TEXT: &'static str = "SqlValue::Text(__row.{fsnake}.clone())";

pub const FIELD_BLOB: &'static str = "SqlValue::Blob(__row.{fsnake}.clone())";

pub const FIELD_GEOM: &'static str = "SqlValue::Blob(__row.{fsnake}.as_wkb())";

pub const FIELD_OPTION_INT: &'static str = "match &__row.{fsnake} {{ Some(v) => SqlValue::Integer(*v as i64), None => SqlValue::Null }}";

pub const FIELD_OPTION_REAL: &'static str = "match &__row.{fsnake} {{ Some(v) => SqlValue::Real(*v as f64), None => SqlValue::Null }}";

pub const FIELD_OPTION_TEXT: &'static str = "match &__row.{fsnake} {{ Some(v) => SqlValue::Text(v.clone()), None => SqlValue::Null }}";

pub const FIELD_OPTION_BLOB: &'static str = "match &__row.{fsnake} {{ Some(v) => SqlValue::Blob(v.clone()), None => SqlValue::Null }}";

pub const FIELD_OPTION_GEOM: &'static str = "match &__row.{fsnake} {{ Some(v) => SqlValue::Blob(v.as_wkb()), None => SqlValue::Null }}";

pub const FIELD_UNSUPPORTED: &'static str = "SqlValue::Null";

pub const FIELD_LINE: &'static str = "{i}            {expr},\n";

pub const ROWS_RECORD: &'static str = r#"{i}let rows: Vec<Vec<SqlValue>> = __upstream
{i}    .into_iter()
{i}    .map(|__row| alloc::vec![
{field_exprs}{i}        ])
{i}    .collect();
"#;

pub const ROWS_UNWIRED: &'static str = r#"{i}let _ = __upstream;
{i}return Err(format!("{name}: UDTF output row not classifiable: {reason}"));
"#;

pub const TYPED_VALUE_USE: &'static str = "        use bindings::exports::sqlite::extension::metadata::TypedValueBinding;\n";

pub const METADATA_IMPL: &'static str = r#"impl MetadataGuest for {bridge_struct} {{
    fn describe() -> Manifest {{
        let det = FunctionFlags::DETERMINISTIC;
        let utf8 = FunctionFlags::empty();

        let _ = utf8;
{typed_value_use}
        let scalar_functions: Vec<ScalarFunctionSpec> = alloc::vec![
{scalar_entries}        ];
        let aggregate_functions: Vec<AggregateFunctionSpec> = alloc::vec![
{agg_entries}        ];
        let vtabs: Vec<VtabSpec> = alloc::vec![
{vtab_entries}        ];
        let typed_values: Vec<TypedValueBinding> = alloc::vec![
{typed_value_entries}        ];

        Manifest {{
            name: "{primary}".into(),
            version: "{version}".into(),
            scalar_functions,
            aggregate_functions,
            collations: alloc::vec![],
            vtabs,
            dot_commands: alloc::vec![],
            has_authorizer: false,
            has_update_hook: false,
            has_commit_hook: false,
            has_wal_hook: false,
            wal_hook_id: 0,
            declared_capabilities: alloc::vec![],
            optional_capabilities: alloc::vec![],
            preferred_prefix: None,
            prefix_expansion: None,
            typed_values,
        }}
    }}
}}

"#;

pub const TYPED_VALUE_ENTRY: &'static str = r#"            TypedValueBinding {{
                type_id: alloc::vec![{type_id}],
                symbolic_name: "{symbolic}".into(),
                decoder_import: "{decoder}".into(),
                encoder_import: "{encoder}".into(),
            }},
"#;

pub const SCALAR_ENTRY: &'static str = "            ScalarFunctionSpec {{ id: {id}, name: \"{name}\".into(), num_args: {num_args}, func_flags: {flags} }},\n";

pub const AGGREGATE_ENTRY: &'static str = "            AggregateFunctionSpec {{ id: {id}, name: \"{name}\".into(), num_args: {num_args}, func_flags: FunctionFlags::empty(), is_window: {is_window} }},\n";

pub const VTAB_ENTRY: &'static str = "            VtabSpec {{ id: {id}, name: \"{name}\".into(), eponymous: true, mutable: false, batched: false }},\n";

pub const SERDE_OPS_HEADER: &'static str = r#"
// Phase E serde-ops impl. Bodies use ciborium
// against the wit-bindgen-generated Rust types
// (which carry serde::Serialize + Deserialize
// derives via the bindgen invocation's
// additional_derives).
"#;

pub const SERDE_OPS_GUEST: &'static str = "use bindings::exports::sqlink_bridge::{primary_snake}::serde_ops::Guest as SerdeOpsGuest;\n";

pub const SERDE_OPS_TYPES: &'static str = "use bindings::exports::sqlink_bridge::{primary_snake}::serde_ops::{{{names}}};\n";

pub const SERDE_OPS_IMPL: &'static str = "impl SerdeOpsGuest for {bridge_struct} {{\n";

pub const FROM_CANON_CBOR: &'static str = r#"    fn {snake}_from_canon_cbor(bytes: Vec<u8>) -> Result<{pascal}, String> {{
        ciborium::de::from_reader::<{pascal}, _>(bytes.as_slice())
            .map_err(|e| format!("{primary} {kebab}: canon-cbor decode: {{e}}"))
    }}
"#;

pub const TO_CANON_CBOR: &'static str = r#"    fn {snake}_to_canon_cbor(value: {pascal}) -> Vec<u8> {{
        let mut buf: Vec<u8> = Vec::new();
        ciborium::ser::into_writer(&value, &mut buf)
            .expect("{primary} {kebab}: canon-cbor encode into Vec<u8> cannot IO-fail");
        buf
    }}
"#;

pub const TUPLE_HELPERS_HEADER: &'static str = r#"
// W2 Phase 2 mop-up (#555): list<tuple<...>> param helpers.
// One per unique tuple-element signature referenced by a wired
// dispatch arm. SQL passes a JSON-array of arrays as the TEXT
// arg (e.g. `'[[1, 10], [20, 30]]'`); serde_json parses tuples
// as fixed-length JSON arrays so the upstream
// `Vec<(T1, T2, ...)>` binding round-trips directly.
"#;

pub const TUPLE_HELPER: &'static str = r#"#[allow(dead_code)]
fn parse_json_list_tuple_{suffix}(args: &[SqlValue], idx: usize, name: &str) -> Result<Vec<{rust_tuple}>, String> {{
    let text = arg_text(args, idx, name)?;
    serde_json::from_str::<Vec<{rust_tuple}>>(text)
        .map_err(|e| format!("{{name}}: arg {{idx}} must be JSON array of [{wit_label}] tuples ({{e}})"))
}}

"#;

pub const WIT_VALUE_HEADER: &'static str = r#"
// ── Phase E wit-value marshaling helpers ──
// Per-record `arg_witvalue_<snake>` (param) and
// `ret_to_witvalue_<snake>` (return). Each helper
// closes over the bridge's LOCAL serde-ops codec and
// the UPSTREAM type from the shim package. LOCAL +
// UPSTREAM share field shapes by construction so the
// ciborium round-trip is byte-identical.
//
// Task #523: records whose LOCAL clone is byte-compatible
// with the UPSTREAM Rust type (the `direct` flag on the
// registry) skip the LOCAL→UPSTREAM round-trip and decode
// payload bytes straight into the upstream type. The
// criterion is field-level recursive (see
// `record_registry::RecordType::direct`).
#[allow(dead_code)]
use bindings::sqlite::extension::types::WitValuePayload;

"#;

pub const LOCAL_PATH: &'static str = "bindings::exports::sqlink_bridge::{primary_snake}::serde_ops::{pascal}";

pub const ARG_WIT_VALUE_DIRECT: &'static str = r#"#[allow(dead_code)]
fn arg_witvalue_{snake}(
    args: &[SqlValue],
    idx: usize,
    name: &str,
) -> Result<{upstream_path}, String> {{
    let payload = match args.get(idx) {{
        Some(SqlValue::WitValue(p)) => p,
        _ => return Err(format!("{{name}}: arg {{idx}} must be WIT-VALUE")),
    }};
    // Task #523 short-circuit: LOCAL serde-ops type
    // is byte-compatible with UPSTREAM (verified at
    // codegen time via record_registry's `direct`
    // fix-point). Decode straight into UPSTREAM.
    ciborium::de::from_reader::<{upstream_path}, _>(payload.bytes.as_slice())
        .map_err(|e| format!("{{name}}: decode arg {{idx}}: {{}}", e))
}}

"#;

pub const ARG_WIT_VALUE: &'static str = r#"#[allow(dead_code)]
fn arg_witvalue_{snake}(
    args: &[SqlValue],
    idx: usize,
    name: &str,
) -> Result<{upstream_path}, String> {{
    let payload = match args.get(idx) {{
        Some(SqlValue::WitValue(p)) => p,
        _ => return Err(format!("{{name}}: arg {{idx}} must be WIT-VALUE")),
    }};
    // LOCAL serde-ops decode — proves the codec
    // fires (not the identity-passthrough fallback).
    let __loc: {local_path} = <{bridge_struct} as bindings::exports::sqlink_bridge::{primary_snake}::serde_ops::Guest>::{snake}_from_canon_cbor(
        payload.bytes.clone(),
    )
    .map_err(|e| format!("{{name}}: decode arg {{idx}}: {{}}", e))?;
    // LOCAL → UPSTREAM via ciborium round-trip.
    let mut __buf: Vec<u8> = Vec::new();
    ciborium::ser::into_writer(&__loc, &mut __buf)
        .map_err(|e| format!("{{name}}: re-encode arg {{idx}}: {{}}", e))?;
    ciborium::de::from_reader::<{upstream_path}, _>(__buf.as_slice())
        .map_err(|e| format!("{{name}}: convert arg {{idx}}: {{}}", e))
}}

"#;

pub const PARSE_LIST_RECORD: &'static str = r#"#[allow(dead_code)]
fn parse_json_list_record_{snake}(
    args: &[SqlValue],
    idx: usize,
    name: &str,
) -> Result<Vec<{upstream_path}>, String> {{
    let text = arg_text(args, idx, name)?;
    serde_json::from_str::<Vec<{upstream_path}>>(text)
        .map_err(|e| format!("{{name}}: arg {{idx}} must be JSON array of {kebab} ({{e}})"))
}}

"#;

pub const RET_WIT_VALUE: &'static str = r#"#[allow(dead_code)]
fn ret_to_witvalue_{snake}(
    upstream: {upstream_path},
) -> Result<SqlValue, String> {{
    let mut __buf: Vec<u8> = Vec::new();
    ciborium::ser::into_writer(&upstream, &mut __buf)
        .map_err(|e| format!("encode {snake} wit-value: {{}}", e))?;
    Ok(SqlValue::WitValue(WitValuePayload {{
        type_id: alloc::vec![{tid}],
        bytes: __buf,
        symbolic_name: "{symbolic}".into(),
    }}))
}}

"#;

pub const POSTGIS_HELPERS: &'static str = r#"

fn from_wkb(bytes: &[u8], name: &str) -> Result<Geometry, String> {
    Geometry::from_wkb(bytes).map_err(|e| format!("{name}: {}", postgis_err_string(e)))
}

fn geog_from_wkb(bytes: &[u8], name: &str) -> Result<Geography, String> {
    Geography::from_wkb(bytes).map_err(|e| format!("{name}: {}", postgis_err_string(e)))
}

/// Format a `postgis-error` variant back to a string the SQL
/// caller can read. Mirrors the helper in the hand-written
/// bridge.
fn postgis_err_string(e: PostgisError) -> String {
    match e {
        PostgisError::InvalidGeometry(s)
        | PostgisError::ParseError(s)
        | PostgisError::UnsupportedOperation(s)
        | PostgisError::NumericError(s)
        | PostgisError::SridMismatch(s)
        | PostgisError::General(s) => s,
    }
}"#;

pub const RASTER_HELPERS: &'static str = r#"

fn from_raster_binary(bytes: &[u8], name: &str) -> Result<Raster, String> {{
    bindings::{pkg_ns}::{pkg_name}::postgis_raster_types::from_binary(bytes)
        .map_err(|e| format!("{{}}: {{}}", name, raster_err_string(e)))
}}

/// Format a `raster-error` variant back to a string the SQL caller
/// can read.
fn raster_err_string(e: RasterError) -> String {{
    match e {{
        RasterError::ParseError(s)
        | RasterError::OutOfBounds(s)
        | RasterError::TypeMismatch(s)
        | RasterError::General(s) => s,
    }}
}}"#;

pub const TOPOLOGY_HELPERS: &'static str = r#"

fn from_topology_bytes(bytes: &[u8], name: &str) -> Result<Topology, String> {{
    bindings::{pkg_ns}::{pkg_name}::postgis_topology_types::from_bytes(bytes)
        .map_err(|e| format!("{{}}: {{}}", name, topology_err_string(e)))
}}

/// Format a `topology-error` variant back to a string the SQL caller
/// can read. The `*-not-found` arms render the numeric id alongside
/// a short label so the caller sees which primitive failed.
fn topology_err_string(e: TopologyError) -> String {{
    match e {{
        TopologyError::InvalidTopology(s) | TopologyError::General(s) => s,
        TopologyError::NodeNotFound(id) => format!("node not found: {{}}", id),
        TopologyError::EdgeNotFound(id) => format!("edge not found: {{}}", id),
        TopologyError::FaceNotFound(id) => format!("face not found: {{}}", id),
    }}
}}"#;

} // verus!
