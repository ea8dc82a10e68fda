//! Whether a bridge can be emitted from what is given.

use vstd::prelude::*;

use crate::duckdb::dispatch;
use crate::duckdb::emit_lib::{self, BridgeInputs};
use crate::ir::{
    AccKind, AggregateEntry, AggregateShape, DispatchEntry, DispatchShape, ParamShape, RetShape,
    UdtfEntry,
};

verus! {

fn is_param_wired(p: &ParamShape) -> (r: bool)
    ensures
        r == dispatch::param_wired(*p),
{
    match p {
        ParamShape::ListTupleMixed { elements: _ } => false,
        ParamShape::ListListRecord { kebab_name: _ } => false,
        _ => true,
    }
}

fn is_ret_wired(ret: &RetShape) -> (r: bool)
    ensures
        r == dispatch::ret_wired(*ret),
{
    match ret {
        RetShape::OptionEnum { wit_module: _, wit_package: _, kebab_name: _, cases: _ } => false,
        _ => true,
    }
}

fn are_params_wired(params: &Vec<ParamShape>) -> (r: bool)
    ensures
        r == dispatch::params_wired(params@),
{
    let mut k: usize = 0;
    while k < params.len()
        invariant
            k <= params@.len(),
            forall|j: int| 0 <= j < k ==> dispatch::param_wired(#[trigger] params@[j]),
        decreases params.len() - k,
    {
        if !is_param_wired(&params[k]) {
            assert(!dispatch::param_wired(params@[k as int]));
            return false;
        }
        k = k + 1;
    }
    true
}

fn is_scalar_wired(shape: &DispatchShape) -> (r: bool)
    ensures
        r == dispatch::scalar_wired(*shape),
{
    are_params_wired(&shape.params) && is_ret_wired(&shape.ret)
}

fn is_aggregate_wired(shape: &AggregateShape) -> (r: bool)
    ensures
        r == dispatch::aggregate_wired(*shape),
{
    match &shape.accumulator_kind {
        AccKind::RecordToListPrim { input: _ } => false,
        AccKind::RecordSetToRecordSet { input: _, output: _ } => false,
        _ => true,
    }
}

/// Whether arms can be written for all scalars.
pub fn are_scalars_wired(entries: &Vec<(DispatchEntry, bool)>) -> (r: bool)
    ensures
        r == emit_lib::scalars_wired(entries@),
{
    let mut k: usize = 0;
    while k < entries.len()
        invariant
            k <= entries@.len(),
            forall|j: int| 0 <= j < k ==> dispatch::scalar_wired((#[trigger] entries@[j]).0.shape),
        decreases entries.len() - k,
    {
        if !is_scalar_wired(&entries[k].0.shape) {
            assert(!dispatch::scalar_wired(entries@[k as int].0.shape));
            return false;
        }
        k = k + 1;
    }
    true
}

/// Whether arms can be written for all aggregates.
pub fn are_aggregates_wired(entries: &Vec<AggregateEntry>) -> (r: bool)
    ensures
        r == emit_lib::aggregates_wired(entries@),
{
    let mut k: usize = 0;
    while k < entries.len()
        invariant
            k <= entries@.len(),
            forall|j: int| 0 <= j < k ==> dispatch::aggregate_wired((#[trigger] entries@[j]).shape),
        decreases entries.len() - k,
    {
        if !is_aggregate_wired(&entries[k].shape) {
            assert(!dispatch::aggregate_wired(entries@[k as int].shape));
            return false;
        }
        k = k + 1;
    }
    true
}

/// Whether arms can be written for all table functions.
pub fn are_tables_wired(entries: &Vec<UdtfEntry>) -> (r: bool)
    ensures
        r == emit_lib::tables_wired(entries@),
{
    let mut k: usize = 0;
    while k < entries.len()
        invariant
            k <= entries@.len(),
            forall|j: int| 0 <= j < k ==> dispatch::params_wired((#[trigger] entries@[j]).shape.params@),
        decreases entries.len() - k,
    {
        if !are_params_wired(&entries[k].shape.params) {
            assert(!dispatch::params_wired(entries@[k as int].shape.params@));
            return false;
        }
        k = k + 1;
    }
    true
}

/// Whether arms can be written for all entries.
pub fn are_inputs_wired(inputs: &BridgeInputs) -> (r: bool)
    ensures
        r == emit_lib::inputs_wired(*inputs),
{
    are_scalars_wired(&inputs.scalar_entries) && are_aggregates_wired(&inputs.aggregate_entries)
        && are_tables_wired(&inputs.udtf_entries)
}

} // verus!
