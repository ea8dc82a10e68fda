//! The bridge crate for SQLite.

pub mod helper_laws;
pub mod aggregate_texts;
pub mod argument_texts;
pub mod checks;
pub mod dispatch;
pub mod dispatch_templates;
pub mod emit_lib;
pub mod emit_records;
pub mod emit_vtab;
pub mod emit_window;
pub mod emit_wit;
pub mod laws;
pub mod lib_templates;
pub mod listing;
pub mod record_texts;
pub mod report_texts;
pub mod reports;
pub mod resource_texts;
pub mod source_texts;
pub mod table_texts;
pub mod type_sources;
pub mod type_text;
pub mod value_texts;
pub mod vtab;
pub mod window_texts;

use vstd::prelude::*;
use vstd::string::*;

use crate::gather;
use crate::ir::{self, BridgePlan, RecordType, WitPackage};
use crate::shim_dirs::{self, ShimDir};
use crate::text::{self, cat};
use crate::words::{self, to_dashed};
use emit_lib::BridgeInputs;

verus! {

/// Puts `-` in place of each character that cannot stand in the name of a crate.
pub fn sanitize(s: &str) -> (r: String)
    ensures
        r@ == words::dashed(s@),
{
    to_dashed(s)
}

/// The name of a bridge crate.
pub open spec fn crate_name(plan: BridgePlan) -> Seq<char> {
    words::dashed(ir::primary_name(plan)) + "-sqlink-bridge"@
}

/// The name of a bridge crate.
pub fn crate_name_for(plan: &BridgePlan) -> (r: String)
    ensures
        r@ == crate_name(*plan),
{
    let primary = sanitize(ir::primary_extension_name(plan));
    cat(primary.as_str(), "-sqlink-bridge")
}

/// The records that a bridge encodes: those of the primary package without a field that refers
/// to a resource. Its world declares the functions that encode them and its source implements
/// these.
pub open spec fn bridge_records(
    plan: BridgePlan,
    records: Seq<RecordType>,
    inputs: BridgeInputs,
) -> Seq<RecordType> {
    let primary = ir::primary_name(plan);
    let pkgs = inputs.shim_packages@;
    let own = gather::own_records(records, primary, records.len());
    type_sources::encodable(
        own,
        type_sources::latest_aliases(pkgs, primary, 0),
        type_sources::sources_prefix(pkgs, pkgs.len()),
        own.len(),
    )
}

/// The directories of a shim's dependencies that never hold the primary shim.
pub open spec fn helper_dirs() -> Seq<Seq<char>> {
    seq!["sqlite-extension"@, "sfcgal-component"@]
}

/// Chooses the directory of the primary shim.
pub fn pick_primary_shim_dir(
    primary: &str,
    dirs: &Vec<ShimDir>,
    shim_packages: &Vec<WitPackage>,
) -> (r: Option<usize>)
    ensures
        match r {
            Some(k) => k < dirs@.len() && shim_dirs::primary_dir(
                primary@,
                dirs@,
                shim_packages@,
                helper_dirs(),
            ) == Some(k as int),
            None => shim_dirs::primary_dir(primary@, dirs@, shim_packages@, helper_dirs()) is None,
        },
{
    let mut helpers: Vec<String> = Vec::new();
    helpers.push("sqlite-extension".to_owned());
    helpers.push("sfcgal-component".to_owned());
    assert(text::strs(helpers@) =~= helper_dirs());
    shim_dirs::pick_primary_shim_dir(primary, dirs, shim_packages, &helpers)
}

/// The texts of a bridge crate.
pub struct BridgeCrate {
    pub crate_name: String,
    pub world_wit: String,
    pub lib_rs: String,
}

/// Emits the texts of a bridge crate.
pub fn emit(plan: &BridgePlan, records: Vec<RecordType>, inputs: &BridgeInputs) -> (r: BridgeCrate)
    requires
        emit_lib::inputs_wired(*inputs),
        emit_lib::plan_fits(*plan, inputs.window_entries@),
    ensures
        r.crate_name@ == crate_name(*plan),
        r.world_wit@ == emit_wit::world(
            ir::primary_name(*plan),
            inputs.shim_packages@,
            inputs.contract_package,
            bridge_records(*plan, records@, *inputs),
        ),
        r.lib_rs@ == emit_lib::lib_source(
            *plan,
            crate_name(*plan),
            bridge_records(*plan, records@, *inputs),
            *inputs,
        ),
{
    let primary = ir::primary_extension_name(plan);
    let own = gather::keep_own_records(records, primary);
    let kept = type_sources::filter_serde_ops_records(own, &inputs.shim_packages, primary);
    let crate_name = crate_name_for(plan);
    let world_wit = emit_wit::render_world(
        primary,
        &inputs.shim_packages,
        &inputs.contract_package,
        &kept,
    );
    let lib_rs = emit_lib::lib_rs(plan, crate_name.as_str(), &kept, inputs);
    BridgeCrate { crate_name, world_wit, lib_rs }
}

} // verus!
