//! The bridge crate for DuckDB.

pub mod helper_laws;
pub mod aggregate_texts;
pub mod argument_texts;
pub mod checks;
pub mod dispatch;
pub mod dispatch_templates;
pub mod emit_lib;
pub mod emit_wit;
pub mod handle_table;
pub mod laws;
pub mod lib_templates;
pub mod lifecycle;
pub mod register;
pub mod register_templates;
pub mod registration_texts;
pub mod report_texts;
pub mod reports;
pub mod resource_texts;
pub mod result_texts;
pub mod source_texts;
pub mod table_texts;
pub mod value_texts;
pub mod values;

use vstd::prelude::*;
use vstd::string::*;

use crate::ir::{self, BridgePlan, WitPackage};
use crate::shim_dirs::{self, ShimDir};
use crate::text::{self, cat};
use crate::words::{self, to_dashed};
use emit_lib::BridgeInputs;
use register::UnwiredCast;

verus! {

/// Puts `-` in place of each character that cannot stand in the name of a crate.
pub fn sanitize(s: &str) -> (r: String)
    ensures
        r@ == words::dashed(s@),
{
    to_dashed(s)
}

/// The name of a bridge crate.
pub open spec fn crate_name(plan: BridgePlan) -> Seq<char> {
    words::dashed(ir::primary_name(plan)) + "-ducklink-bridge"@
}

/// The name of a bridge crate.
pub fn crate_name_for(plan: &BridgePlan) -> (r: String)
    ensures
        r@ == crate_name(*plan),
{
    let primary = sanitize(ir::primary_extension_name(plan));
    cat(primary.as_str(), "-ducklink-bridge")
}

/// The directories of a shim's dependencies that never hold the primary shim.
pub open spec fn helper_dirs() -> Seq<Seq<char>> {
    seq!["sqlite-extension"@, "sfcgal-component"@, "duckdb-extension"@]
}

/// Chooses the directory of the primary shim.
pub fn pick_primary_shim_dir(
    primary: &str,
    dirs: &Vec<ShimDir>,
    shim_packages: &Vec<WitPackage>,
) -> (r: Option<usize>)
    ensures
        match r {
            Some(k) => k < dirs@.len() && shim_dirs::primary_dir(
                primary@,
                dirs@,
                shim_packages@,
                helper_dirs(),
            ) == Some(k as int),
            None => shim_dirs::primary_dir(primary@, dirs@, shim_packages@, helper_dirs()) is None,
        },
{
    let mut helpers: Vec<String> = Vec::new();
    helpers.push("sqlite-extension".to_owned());
    helpers.push("sfcgal-component".to_owned());
    helpers.push("duckdb-extension".to_owned());
    assert(text::strs(helpers@) =~= helper_dirs());
    shim_dirs::pick_primary_shim_dir(primary, dirs, shim_packages, &helpers)
}

/// The texts of a bridge crate, and the casts that run no function.
pub struct BridgeCrate {
    pub crate_name: String,
    pub world_wit: String,
    pub lib_rs: String,
    pub unwired_casts: Vec<UnwiredCast>,
}

/// Emits the texts of a bridge crate.
pub fn emit(plan: &BridgePlan, inputs: &BridgeInputs) -> (r: BridgeCrate)
    requires
        emit_lib::inputs_wired(*inputs),
    ensures
        r.crate_name@ == crate_name(*plan),
        r.world_wit@ == emit_wit::world(
            ir::primary_name(*plan),
            inputs.shim_packages@,
            inputs.duckdb_package,
        ),
        r.lib_rs@ == emit_lib::lib_source(*plan, *inputs),
        register::report_all(
            r.unwired_casts@,
            register::all_unwired_casts(
                ir::scalar_names(inputs.scalar_entries@),
                plan.extensions@,
                plan.extensions@.len(),
            ),
        ),
{
    let crate_name = crate_name_for(plan);
    let world_wit = emit_wit::render_world(
        ir::primary_extension_name(plan),
        &inputs.shim_packages,
        &inputs.duckdb_package,
    );
    let lib = emit_lib::lib_rs(plan, crate_name.as_str(), inputs);
    BridgeCrate { crate_name, world_wit, lib_rs: lib.source, unwired_casts: lib.unwired_casts }
}

} // verus!
