//! Which records and lists of tuples have helpers: just those that some arm reads or makes.

use vstd::prelude::*;
use vstd::string::*;

use crate::duckdb::emit_lib;
use crate::duckdb::lib_templates as t;
use crate::gather;
use crate::ir::{AggregateEntry, DispatchEntry, RecordType};
use crate::order;
use crate::references;
use crate::words;

verus! {

/// Whether an aggregate takes the functions of a record for what it accumulates.
pub open spec fn aggregate_names_record(e: AggregateEntry, x: Seq<char>) -> bool {
    references::acc_names_record(e.shape.accumulator_kind, x)
}

proof fn lemma_with_aggregate_records(
    base: Seq<Seq<char>>,
    entries: Seq<AggregateEntry>,
    n: nat,
    x: Seq<char>,
)
    requires
        n <= entries.len(),
    ensures
        emit_lib::with_aggregate_records(base, entries, n).contains(x) <==> base.contains(
            x,
        ) || exists|k: int|
            0 <= k < n && aggregate_names_record(#[trigger] entries[k], x),
    decreases n,
{
    if n > 0 {
        lemma_with_aggregate_records(base, entries, (n - 1) as nat, x);
        let before = emit_lib::with_aggregate_records(base, entries, (n - 1) as nat);
        let shape = entries[n - 1].shape;
        references::law_acc_records(before, shape.accumulator_kind, x);
        if emit_lib::with_aggregate_records(base, entries, n).contains(x) && !before.contains(x) {
            assert(aggregate_names_record(entries[n - 1], x));
        }
        if exists|k: int| 0 <= k < n && aggregate_names_record(#[trigger] entries[k], x) {
            let k = choose|k: int| 0 <= k < n && aggregate_names_record(#[trigger] entries[k], x);
            if k < n - 1 {
                assert(aggregate_names_record(entries[k], x));
            }
        }
    }
}

/// The records that have helpers are just those that a scalar reads or makes, or an aggregate
/// accumulates.
pub proof fn law_records_used(
    scalars: Seq<(DispatchEntry, bool)>,
    aggregates: Seq<AggregateEntry>,
    x: Seq<char>,
)
    ensures
        emit_lib::referenced_records(scalars, aggregates).contains(x) <==> {
            ||| exists|k: int|
                0 <= k < scalars.len() && references::scalar_names_record(#[trigger] scalars[k], x)
            ||| exists|k: int|
                0 <= k < aggregates.len() && aggregate_names_record(#[trigger] aggregates[k], x)
        },
{
    let one = gather::scalar_records(scalars, scalars.len());
    references::law_scalar_records(scalars, scalars.len(), x);
    lemma_with_aggregate_records(one, aggregates, aggregates.len(), x);
    order::law_sorted_set(emit_lib::with_aggregate_records(one, aggregates, aggregates.len()));
}

/// The lists of tuples that have helpers are just those that a scalar takes.
pub proof fn law_tuples_used(scalars: Seq<(DispatchEntry, bool)>, x: Seq<char>)
    ensures
        order::sorted_set(gather::scalar_signatures(scalars, scalars.len())).contains(x)
            <==> exists|k: int, j: int|
            0 <= k < scalars.len() && 0 <= j < scalars[k].0.shape.params@.len()
                && references::param_has_tuple(#[trigger] scalars[k].0.shape.params@[j], x),
{
    references::law_scalar_tuples(scalars, scalars.len(), x);
    order::law_sorted_set(gather::scalar_signatures(scalars, scalars.len()));
}

proof fn lemma_record_helpers_stand(
    records: Seq<RecordType>,
    primary: Seq<char>,
    used: Seq<Seq<char>>,
    n: nat,
    k: int,
)
    requires
        0 <= k < n <= records.len(),
        words::belongs(records[k].package@, primary),
        used.contains(records[k].kebab_name@),
    ensures
        words::has_piece(
            emit_lib::wit_value_helpers(records, primary, used, n),
            emit_lib::record_helpers(records[k]),
        ),
    decreases n,
{
    let before = emit_lib::wit_value_helpers(records, primary, used, (n - 1) as nat);
    if k == n - 1 {
        words::lemma_piece_added(before, emit_lib::record_helpers(records[k]));
    } else {
        lemma_record_helpers_stand(records, primary, used, (n - 1) as nat, k);
        words::lemma_pieces_kept(before, emit_lib::record_helpers(records[n - 1]));
    }
}

/// A record of the primary package that arms refer to has its functions among the helpers.
pub proof fn law_record_helpers_stand(
    records: Seq<RecordType>,
    primary: Seq<char>,
    used: Seq<Seq<char>>,
    k: int,
)
    requires
        0 <= k < records.len(),
        words::belongs(records[k].package@, primary),
        used.contains(records[k].kebab_name@),
    ensures
        words::has_piece(
            emit_lib::wit_value_block(records, primary, used),
            emit_lib::record_helpers(records[k]),
        ),
{
    lemma_record_helpers_stand(records, primary, used, records.len(), k);
    assert(emit_lib::record_helped(records[k], primary, used));
    words::lemma_pieces_moved(
        t::WIT_VALUE_HEADER@,
        emit_lib::wit_value_helpers(records, primary, used, records.len()),
    );
}

} // verus!
