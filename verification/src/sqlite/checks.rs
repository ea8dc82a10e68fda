//! Whether a bridge can be emitted from what is given.

use vstd::prelude::*;

use crate::ir::{
    AccKind, AggregateEntry, AggregateFn, AggregateShape, BridgePlan, DispatchEntry, DispatchShape,
    ParamShape, RetShape, ScalarFn, WindowEntry, WindowFn,
};
use crate::sqlite::dispatch;
use crate::sqlite::emit_lib::{self, BridgeInputs};
use crate::sqlite::listing;

verus! {

// ─── Shapes ───

fn is_param_wired(p: &ParamShape) -> (r: bool)
    ensures
        r == dispatch::param_wired(*p),
{
    match p {
        ParamShape::ListTupleMixed { elements: _ } => false,
        ParamShape::ListListU8 => false,
        ParamShape::ListListPrim(_) => false,
        ParamShape::ListListRecord { kebab_name: _ } => false,
        _ => true,
    }
}

fn is_ret_wired(ret: &RetShape) -> (r: bool)
    ensures
        r == dispatch::ret_wired(*ret),
{
    match ret {
        RetShape::TopoGeometryViaGeom => false,
        RetShape::OptionEnum { wit_module: _, wit_package: _, kebab_name: _, cases: _ } => false,
        RetShape::ListBool => false,
        RetShape::ListListU8 => false,
        RetShape::Unit => false,
        _ => true,
    }
}

fn are_params_wired(params: &Vec<ParamShape>) -> (r: bool)
    ensures
        r == dispatch::params_wired(params@),
{
    let mut k: usize = 0;
    while k < params.len()
        invariant
            k <= params@.len(),
            forall|j: int| 0 <= j < k ==> dispatch::param_wired(#[trigger] params@[j]),
        decreases params.len() - k,
    {
        if !is_param_wired(&params[k]) {
            assert(!dispatch::param_wired(params@[k as int]));
            return false;
        }
        k = k + 1;
    }
    true
}

fn is_scalar_wired(shape: &DispatchShape) -> (r: bool)
    ensures
        r == dispatch::scalar_wired(*shape),
{
    are_params_wired(&shape.params) && is_ret_wired(&shape.ret)
}

fn is_aggregate_wired(shape: &AggregateShape) -> (r: bool)
    ensures
        r == dispatch::aggregate_wired(*shape),
{
    match &shape.accumulator_kind {
        AccKind::RecordToListPrim { input: _ } => false,
        AccKind::RecordSetToRecordSet { input: _, output: _ } => false,
        _ => true,
    }
}

/// Whether arms can be written for all scalars.
pub fn are_scalars_wired(entries: &Vec<(DispatchEntry, bool)>) -> (r: bool)
    ensures
        r == emit_lib::scalars_wired(entries@),
{
    let mut k: usize = 0;
    while k < entries.len()
        invariant
            k <= entries@.len(),
            forall|j: int| 0 <= j < k ==> dispatch::scalar_wired((#[trigger] entries@[j]).0.shape),
        decreases entries.len() - k,
    {
        if !is_scalar_wired(&entries[k].0.shape) {
            assert(!dispatch::scalar_wired(entries@[k as int].0.shape));
            return false;
        }
        k = k + 1;
    }
    true
}

/// Whether arms can be written for all aggregates.
pub fn are_aggregates_wired(entries: &Vec<AggregateEntry>) -> (r: bool)
    ensures
        r == emit_lib::aggregates_wired(entries@),
{
    let mut k: usize = 0;
    while k < entries.len()
        invariant
            k <= entries@.len(),
            forall|j: int| 0 <= j < k ==> dispatch::aggregate_wired((#[trigger] entries@[j]).shape),
        decreases entries.len() - k,
    {
        if !is_aggregate_wired(&entries[k].shape) {
            assert(!dispatch::aggregate_wired(entries@[k as int].shape));
            return false;
        }
        k = k + 1;
    }
    true
}

/// Whether the number of arguments of each window function fits its field in the manifest.
pub fn do_entries_fit(entries: &Vec<WindowEntry>) -> (r: bool)
    ensures
        r == listing::entries_fit(entries@),
{
    let mut k: usize = 0;
    while k < entries.len()
        invariant
            k <= entries@.len(),
            forall|j: int| 0 <= j < k ==> ((#[trigger] entries@[j]).shape.extra_args@.len() < i32::MAX),
        decreases entries.len() - k,
    {
        if !(entries[k].shape.extra_args.len() < i32::MAX as usize) {
            assert(!(entries@[k as int].shape.extra_args@.len() < i32::MAX));
            return false;
        }
        k = k + 1;
    }
    true
}

/// Whether arms can be written for all entries, and their numbers of arguments fit.
pub fn are_inputs_wired(inputs: &BridgeInputs) -> (r: bool)
    ensures
        r == emit_lib::inputs_wired(*inputs),
{
    are_scalars_wired(&inputs.scalar_entries) && are_aggregates_wired(&inputs.aggregate_entries)
        && do_entries_fit(&inputs.window_entries)
}

// ─── Numbers ───

fn does_arity_fit(variants: &Vec<Vec<String>>) -> (r: bool)
    ensures
        r == listing::arity_fits(variants@),
{
    variants.len() == 0 || variants[0].len() <= i32::MAX as usize
}

fn do_scalars_fit(entries: &Vec<ScalarFn>) -> (r: bool)
    ensures
        r == listing::scalars_fit(entries@),
{
    let mut k: usize = 0;
    while k < entries.len()
        invariant
            k <= entries@.len(),
            forall|j: int| 0 <= j < k ==> listing::arity_fits((#[trigger] entries@[j]).param_signatures@),
        decreases entries.len() - k,
    {
        if !does_arity_fit(&entries[k].param_signatures) {
            assert(!listing::arity_fits(entries@[k as int].param_signatures@));
            return false;
        }
        k = k + 1;
    }
    true
}

fn do_aggregates_fit(entries: &Vec<AggregateFn>) -> (r: bool)
    ensures
        r == listing::aggregates_fit(entries@),
{
    let mut k: usize = 0;
    while k < entries.len()
        invariant
            k <= entries@.len(),
            forall|j: int| 0 <= j < k ==> listing::arity_fits((#[trigger] entries@[j]).param_signatures@),
        decreases entries.len() - k,
    {
        if !does_arity_fit(&entries[k].param_signatures) {
            assert(!listing::arity_fits(entries@[k as int].param_signatures@));
            return false;
        }
        k = k + 1;
    }
    true
}

fn do_windows_fit(entries: &Vec<WindowFn>) -> (r: bool)
    ensures
        r == listing::windows_fit(entries@),
{
    let mut k: usize = 0;
    while k < entries.len()
        invariant
            k <= entries@.len(),
            forall|j: int| 0 <= j < k ==> listing::arity_fits((#[trigger] entries@[j]).param_signatures@),
        decreases entries.len() - k,
    {
        if !does_arity_fit(&entries[k].param_signatures) {
            assert(!listing::arity_fits(entries@[k as int].param_signatures@));
            return false;
        }
        k = k + 1;
    }
    true
}

fn do_extensions_fit(plan: &BridgePlan) -> (r: bool)
    ensures
        r == emit_lib::args_fit(*plan),
{
    let mut k: usize = 0;
    while k < plan.extensions.len()
        invariant
            k <= plan.extensions@.len(),
            forall|j: int|
                0 <= j < k ==> emit_lib::extension_fits(#[trigger] plan.extensions@[j]),
        decreases plan.extensions.len() - k,
    {
        let ext = &plan.extensions[k];
        if !(do_scalars_fit(&ext.scalars) && do_aggregates_fit(&ext.aggregates) && do_windows_fit(
            &ext.window_functions,
        )) {
            assert(!emit_lib::extension_fits(plan.extensions@[k as int]));
            return false;
        }
        k = k + 1;
    }
    true
}

/// Whether the numbers of a plan's functions and of their arguments fit.
pub fn does_plan_fit(plan: &BridgePlan, window_entries: &Vec<WindowEntry>) -> (r: bool)
    requires
        listing::entries_fit(window_entries@),
    ensures
        r == emit_lib::plan_fits(*plan, window_entries@),
{
    if !do_extensions_fit(plan) {
        return false;
    }
    let scalars = listing::build_scalar_id_index(plan);
    let aggregates = listing::build_aggregate_id_index(plan);
    let tables = listing::build_udtf_id_index(plan);
    let windows = listing::build_window_id_index(plan, window_entries);
    scalars.len() as u64 <= u64::MAX - listing::SCALAR_BASE && aggregates.len() as u64 <= u64::MAX
        - listing::AGGREGATE_BASE && tables.len() as u64 <= u64::MAX - listing::TABLE_BASE
        && windows.len() as u64 <= u64::MAX - listing::WINDOW_BASE
}

} // verus!
