//! Which records and lists of tuples have helpers: just those that some arm reads or makes.

use vstd::prelude::*;
use vstd::string::*;

use crate::gather;
use crate::ir::{AggregateEntry, DispatchEntry, RecordType, UdtfEntry};
use crate::order;
use crate::references;
use crate::sqlite::emit_lib;
use crate::sqlite::emit_records;
use crate::sqlite::lib_templates as t;
use crate::words;

verus! {

/// Whether an aggregate takes the functions of a record: for what it accumulates, for its result
/// or for an extra argument.
pub open spec fn aggregate_names_record(e: AggregateEntry, x: Seq<char>) -> bool {
    references::acc_names_record(e.shape.accumulator_kind, x) || references::ret_names_record(
        e.shape.ret,
        x,
    ) || exists|j: int|
        0 <= j < e.shape.extra_args@.len() && references::param_names_record(
            #[trigger] e.shape.extra_args@[j],
            x,
        )
}

/// Whether a table function takes the functions of a record.
pub open spec fn table_names_record(e: UdtfEntry, x: Seq<char>) -> bool {
    exists|j: int|
        0 <= j < e.shape.params@.len() && references::param_names_record(
            #[trigger] e.shape.params@[j],
            x,
        )
}

/// Whether an extra argument of an aggregate is a list of tuples of these elements.
pub open spec fn aggregate_has_tuple(e: AggregateEntry, x: Seq<char>) -> bool {
    exists|j: int|
        0 <= j < e.shape.extra_args@.len() && references::param_has_tuple(
            #[trigger] e.shape.extra_args@[j],
            x,
        )
}

/// Whether a parameter of a table function is a list of tuples of these elements.
pub open spec fn table_has_tuple(e: UdtfEntry, x: Seq<char>) -> bool {
    exists|j: int|
        0 <= j < e.shape.params@.len() && references::param_has_tuple(
            #[trigger] e.shape.params@[j],
            x,
        )
}

proof fn lemma_with_aggregate_records(
    base: Seq<Seq<char>>,
    entries: Seq<AggregateEntry>,
    n: nat,
    x: Seq<char>,
)
    requires
        n <= entries.len(),
    ensures
        emit_lib::with_aggregate_records(base, entries, n).contains(x) <==> base.contains(
            x,
        ) || exists|k: int|
            0 <= k < n && aggregate_names_record(#[trigger] entries[k], x),
    decreases n,
{
    if n > 0 {
        lemma_with_aggregate_records(base, entries, (n - 1) as nat, x);
        let before = emit_lib::with_aggregate_records(base, entries, (n - 1) as nat);
        let shape = entries[n - 1].shape;
        let extras = shape.extra_args@;
        references::law_param_records(before, extras, extras.len(), x);
        let read = gather::with_param_records(before, extras, extras.len());
        references::law_ret_record(read, shape.ret, x);
        references::law_acc_records(
            gather::with_ret_record(read, shape.ret),
            shape.accumulator_kind,
            x,
        );
        if emit_lib::with_aggregate_records(base, entries, n).contains(x) && !before.contains(x) {
            assert(aggregate_names_record(entries[n - 1], x));
        }
        if exists|k: int| 0 <= k < n && aggregate_names_record(#[trigger] entries[k], x) {
            let k = choose|k: int| 0 <= k < n && aggregate_names_record(#[trigger] entries[k], x);
            if k < n - 1 {
                assert(aggregate_names_record(entries[k], x));
            }
        }
    }
}

proof fn lemma_with_table_records(
    base: Seq<Seq<char>>,
    entries: Seq<UdtfEntry>,
    n: nat,
    x: Seq<char>,
)
    requires
        n <= entries.len(),
    ensures
        emit_lib::with_table_records(base, entries, n).contains(x) <==> base.contains(
            x,
        ) || exists|k: int|
            0 <= k < n && table_names_record(#[trigger] entries[k], x),
    decreases n,
{
    if n > 0 {
        lemma_with_table_records(base, entries, (n - 1) as nat, x);
        let before = emit_lib::with_table_records(base, entries, (n - 1) as nat);
        let shape = entries[n - 1].shape;
        references::law_param_records(before, shape.params@, shape.params@.len(), x);
        if emit_lib::with_table_records(base, entries, n).contains(x) && !before.contains(x) {
            assert(table_names_record(entries[n - 1], x));
        }
        if exists|k: int| 0 <= k < n && table_names_record(#[trigger] entries[k], x) {
            let k = choose|k: int| 0 <= k < n && table_names_record(#[trigger] entries[k], x);
            if k < n - 1 {
                assert(table_names_record(entries[k], x));
            }
        }
    }
}

proof fn lemma_with_aggregate_signatures(
    base: Seq<Seq<char>>,
    entries: Seq<AggregateEntry>,
    n: nat,
    x: Seq<char>,
)
    requires
        n <= entries.len(),
    ensures
        emit_lib::with_aggregate_signatures(base, entries, n).contains(x) <==> base.contains(
            x,
        ) || exists|k: int|
            0 <= k < n && aggregate_has_tuple(#[trigger] entries[k], x),
    decreases n,
{
    if n > 0 {
        lemma_with_aggregate_signatures(base, entries, (n - 1) as nat, x);
        let before = emit_lib::with_aggregate_signatures(base, entries, (n - 1) as nat);
        let shape = entries[n - 1].shape;
        references::law_param_tuples(before, shape.extra_args@, shape.extra_args@.len(), x);
        if emit_lib::with_aggregate_signatures(base, entries, n).contains(x) && !before.contains(x) {
            assert(aggregate_has_tuple(entries[n - 1], x));
        }
        if exists|k: int| 0 <= k < n && aggregate_has_tuple(#[trigger] entries[k], x) {
            let k = choose|k: int| 0 <= k < n && aggregate_has_tuple(#[trigger] entries[k], x);
            if k < n - 1 {
                assert(aggregate_has_tuple(entries[k], x));
            }
        }
    }
}

proof fn lemma_with_table_signatures(
    base: Seq<Seq<char>>,
    entries: Seq<UdtfEntry>,
    n: nat,
    x: Seq<char>,
)
    requires
        n <= entries.len(),
    ensures
        emit_lib::with_table_signatures(base, entries, n).contains(x) <==> base.contains(
            x,
        ) || exists|k: int|
            0 <= k < n && table_has_tuple(#[trigger] entries[k], x),
    decreases n,
{
    if n > 0 {
        lemma_with_table_signatures(base, entries, (n - 1) as nat, x);
        let before = emit_lib::with_table_signatures(base, entries, (n - 1) as nat);
        let shape = entries[n - 1].shape;
        references::law_param_tuples(before, shape.params@, shape.params@.len(), x);
        if emit_lib::with_table_signatures(base, entries, n).contains(x) && !before.contains(x) {
            assert(table_has_tuple(entries[n - 1], x));
        }
        if exists|k: int| 0 <= k < n && table_has_tuple(#[trigger] entries[k], x) {
            let k = choose|k: int| 0 <= k < n && table_has_tuple(#[trigger] entries[k], x);
            if k < n - 1 {
                assert(table_has_tuple(entries[k], x));
            }
        }
    }
}

/// The records that have helpers are just those that a scalar, an aggregate or a table function
/// reads or makes.
pub proof fn law_records_used(
    scalars: Seq<(DispatchEntry, bool)>,
    aggregates: Seq<AggregateEntry>,
    tables: Seq<UdtfEntry>,
    x: Seq<char>,
)
    ensures
        emit_lib::referenced_records(scalars, aggregates, tables).contains(x) <==> {
            ||| exists|k: int|
                0 <= k < scalars.len() && references::scalar_names_record(#[trigger] scalars[k], x)
            ||| exists|k: int|
                0 <= k < aggregates.len() && aggregate_names_record(#[trigger] aggregates[k], x)
            ||| exists|k: int| 0 <= k < tables.len() && table_names_record(#[trigger] tables[k], x)
        },
{
    let one = gather::scalar_records(scalars, scalars.len());
    let two = emit_lib::with_aggregate_records(one, aggregates, aggregates.len());
    references::law_scalar_records(scalars, scalars.len(), x);
    lemma_with_aggregate_records(one, aggregates, aggregates.len(), x);
    lemma_with_table_records(two, tables, tables.len(), x);
    order::law_sorted_set(emit_lib::with_table_records(two, tables, tables.len()));
}

/// The lists of tuples that have helpers are just those that a scalar, an aggregate or a table
/// function takes.
pub proof fn law_tuples_used(
    scalars: Seq<(DispatchEntry, bool)>,
    aggregates: Seq<AggregateEntry>,
    tables: Seq<UdtfEntry>,
    x: Seq<char>,
)
    ensures
        emit_lib::tuple_signatures(scalars, aggregates, tables).contains(x) <==> {
            ||| exists|k: int, j: int|
                0 <= k < scalars.len() && 0 <= j < scalars[k].0.shape.params@.len()
                    && references::param_has_tuple(#[trigger] scalars[k].0.shape.params@[j], x)
            ||| exists|k: int|
                0 <= k < aggregates.len() && aggregate_has_tuple(#[trigger] aggregates[k], x)
            ||| exists|k: int| 0 <= k < tables.len() && table_has_tuple(#[trigger] tables[k], x)
        },
{
    let one = gather::scalar_signatures(scalars, scalars.len());
    let two = emit_lib::with_aggregate_signatures(one, aggregates, aggregates.len());
    references::law_scalar_tuples(scalars, scalars.len(), x);
    lemma_with_aggregate_signatures(one, aggregates, aggregates.len(), x);
    lemma_with_table_signatures(two, tables, tables.len(), x);
    order::law_sorted_set(emit_lib::with_table_signatures(two, tables, tables.len()));
}

proof fn lemma_record_helpers_stand(
    primary: Seq<char>,
    bridge: Seq<char>,
    records: Seq<RecordType>,
    used: Seq<Seq<char>>,
    n: nat,
    k: int,
)
    requires
        0 <= k < n <= records.len(),
        used.contains(records[k].kebab_name@),
    ensures
        words::has_piece(
            emit_records::helpers_prefix(primary, bridge, records, used, n),
            emit_records::record_helpers(primary, bridge, records[k]),
        ),
    decreases n,
{
    let before = emit_records::helpers_prefix(primary, bridge, records, used, (n - 1) as nat);
    let part = emit_records::record_helpers(primary, bridge, records[k]);
    if k == n - 1 {
        words::lemma_piece_added(before, part);
    } else {
        lemma_record_helpers_stand(primary, bridge, records, used, (n - 1) as nat, k);
        let more = if used.contains(records[n - 1].kebab_name@) {
            emit_records::record_helpers(primary, bridge, records[n - 1])
        } else {
            Seq::empty()
        };
        words::lemma_pieces_kept(before, more);
    }
}

/// A record that arms refer to has its functions among the helpers, and where they refer to none
/// of the records there are no helpers.
pub proof fn law_record_helpers_stand(
    primary: Seq<char>,
    bridge: Seq<char>,
    records: Seq<RecordType>,
    used: Seq<Seq<char>>,
)
    ensures
        forall|k: int|
            0 <= k < records.len() && used.contains((#[trigger] records[k]).kebab_name@)
                ==> words::has_piece(
                emit_records::wit_value_helpers(primary, bridge, records, used),
                emit_records::record_helpers(primary, bridge, records[k]),
            ),
        (forall|k: int|
            0 <= k < records.len() ==> !used.contains((#[trigger] records[k]).kebab_name@))
            ==> emit_records::wit_value_helpers(primary, bridge, records, used).len() == 0,
{
    let n = records.len();
    assert forall|k: int|
        0 <= k < records.len() && used.contains(
            (#[trigger] records[k]).kebab_name@,
        ) implies words::has_piece(
        emit_records::wit_value_helpers(primary, bridge, records, used),
        emit_records::record_helpers(primary, bridge, records[k]),
    ) by {
        lemma_record_helpers_stand(primary, bridge, records, used, n, k);
        words::lemma_pieces_moved(
            t::WIT_VALUE_HEADER@,
            emit_records::helpers_prefix(primary, bridge, records, used, n),
        );
    }
}

} // verus!
