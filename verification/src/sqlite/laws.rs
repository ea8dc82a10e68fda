//! What holds between the parts of a bridge: a function is dispatched under the number that the
//! manifest lists it under, and what the world declares the source implements.

use vstd::prelude::*;

use crate::ir::{self, AggregateEntry, DispatchEntry, RecordType, UdtfEntry, WindowEntry};
use crate::sqlite::dispatch;
use crate::sqlite::emit_lib;
use crate::sqlite::emit_records;
use crate::sqlite::emit_vtab::{self, ARM_INDENT};
use crate::sqlite::emit_window;
use crate::sqlite::emit_wit;
use crate::sqlite::lib_templates as t;
use crate::sqlite::listing::{self, ListedFn};
use crate::sqlite::type_sources;
use crate::words;

verus! {

// ─── The manifest ───

proof fn lemma_scalar_listed(v: Seq<ListedFn>, k: int, n: nat)
    requires
        0 <= k < n <= v.len(),
    ensures
        words::has_piece(listing::scalar_entries(v, n), listing::scalar_entry(
            (listing::SCALAR_BASE + k) as nat,
            v[k].name,
            v[k].num_args,
            v[k].deterministic,
        )),
    decreases n,
{
    let before = listing::scalar_entries(v, (n - 1) as nat);
    if k == n - 1 {
        words::lemma_piece_added(before, listing::scalar_entry(
            (listing::SCALAR_BASE + k) as nat,
            v[k].name,
            v[k].num_args,
            v[k].deterministic,
        ));
    } else {
        lemma_scalar_listed(v, k, (n - 1) as nat);
        words::lemma_piece_kept(before, listing::scalar_entry(
            (listing::SCALAR_BASE + n - 1) as nat,
            v[n - 1].name,
            v[n - 1].num_args,
            v[n - 1].deterministic,
        ), listing::scalar_entry(
            (listing::SCALAR_BASE + k) as nat,
            v[k].name,
            v[k].num_args,
            v[k].deterministic,
        ));
    }
}

proof fn lemma_aggregate_listed(v: Seq<ListedFn>, base: nat, is_window: bool, k: int, n: nat)
    requires
        0 <= k < n <= v.len(),
    ensures
        words::has_piece(listing::aggregate_entries(v, base, is_window, n), listing::aggregate_entry(
            (base + k) as nat,
            v[k].name,
            v[k].num_args,
            is_window,
        )),
    decreases n,
{
    let before = listing::aggregate_entries(v, base, is_window, (n - 1) as nat);
    if k == n - 1 {
        words::lemma_piece_added(before, listing::aggregate_entry(
            (base + k) as nat,
            v[k].name,
            v[k].num_args,
            is_window,
        ));
    } else {
        lemma_aggregate_listed(v, base, is_window, k, (n - 1) as nat);
        words::lemma_piece_kept(before, listing::aggregate_entry(
            (base + n - 1) as nat,
            v[n - 1].name,
            v[n - 1].num_args,
            is_window,
        ), listing::aggregate_entry(
            (base + k) as nat,
            v[k].name,
            v[k].num_args,
            is_window,
        ));
    }
}

proof fn lemma_table_listed(v: Seq<ListedFn>, k: int, n: nat)
    requires
        0 <= k < n <= v.len(),
    ensures
        words::has_piece(listing::vtab_entries(v, n), listing::vtab_entry((listing::TABLE_BASE + k) as nat, v[k].name)),
    decreases n,
{
    let before = listing::vtab_entries(v, (n - 1) as nat);
    if k == n - 1 {
        words::lemma_piece_added(before, listing::vtab_entry((listing::TABLE_BASE + k) as nat, v[k].name));
    } else {
        lemma_table_listed(v, k, (n - 1) as nat);
        words::lemma_piece_kept(
            before,
            listing::vtab_entry((listing::TABLE_BASE + n - 1) as nat, v[n - 1].name),
            listing::vtab_entry((listing::TABLE_BASE + k) as nat, v[k].name),
        );
    }
}

// ─── Scalars ───

/// The arm of the scalar at `k` under a number.
pub open spec fn scalar_piece(entries: Seq<(DispatchEntry, bool)>, k: int, id: nat) -> Seq<char> {
    emit_lib::arm(
        id,
        dispatch::scalar_arm_body(
            entries[k].0.shape,
            entries[k].1,
            entries[k].0.sql_name@,
            ARM_INDENT@,
        ),
    )
}

proof fn lemma_scalar_arm(entries: Seq<(DispatchEntry, bool)>, v: Seq<ListedFn>, k: int, n: nat)
    requires
        0 <= k < n <= entries.len(),
        emit_lib::scalar_arm(entries, v, k as nat) is Some,
    ensures
        words::has_piece(emit_lib::scalar_arms(entries, v, n), scalar_piece(
            entries,
            k,
            emit_lib::scalar_arm(entries, v, k as nat)->0,
        )),
    decreases n,
{
    let before = emit_lib::scalar_arms(entries, v, (n - 1) as nat);
    let piece = scalar_piece(
            entries,
            k,
            emit_lib::scalar_arm(entries, v, k as nat)->0,
        );
    if k == n - 1 {
        words::lemma_piece_added(before, piece);
    } else {
        lemma_scalar_arm(entries, v, k, (n - 1) as nat);
        let added = match emit_lib::scalar_arm(entries, v, (n - 1) as nat) {
            Some(id) => scalar_piece(entries, n - 1, id),
            None => Seq::empty(),
        };
        words::lemma_piece_kept(before, added, piece);
    }
}

/// A scalar that has an arm is dispatched under a number that the manifest lists its name under.
pub proof fn law_scalar_dispatched_as_listed(
    entries: Seq<(DispatchEntry, bool)>,
    v: Seq<ListedFn>,
    k: int,
)
    requires
        0 <= k < entries.len(),
        emit_lib::scalar_arm(entries, v, k as nat) is Some,
    ensures
        ({
            let id = emit_lib::scalar_arm(entries, v, k as nat)->0;
            let f = v[id - listing::SCALAR_BASE];
            &&& words::has_piece(
                emit_lib::scalar_arms(entries, v, entries.len()),
                scalar_piece(entries, k, id),
            )
            &&& words::has_piece(
                listing::scalar_entries(v, v.len()),
                listing::scalar_entry(id, entries[k].0.sql_name@, f.num_args, f.deterministic),
            )
        }),
{
    let id = emit_lib::scalar_arm(entries, v, k as nat)->0;
    let base = listing::SCALAR_BASE as nat;
    lemma_scalar_arm(entries, v, k, entries.len());
    listing::law_id_listed(v, base, ir::scalar_names(entries)[k]);
    lemma_scalar_listed(v, id - base, v.len());
}

// ─── Aggregates ───

/// The step arm of the aggregate name at `k` under a number.
pub open spec fn step_piece(entries: Seq<AggregateEntry>, k: int, id: nat) -> Seq<char> {
    let (name, at) = ir::aggregate_names(entries)[k];
    emit_lib::arm(id, dispatch::aggregate_step(entries[at].shape, name, ARM_INDENT@))
}

/// The result arm of the aggregate name at `k` under a number.
pub open spec fn final_piece(entries: Seq<AggregateEntry>, k: int, id: nat) -> Seq<char> {
    let (name, at) = ir::aggregate_names(entries)[k];
    emit_lib::arm(id, dispatch::aggregate_finalize(entries[at].shape, name, ARM_INDENT@))
}

proof fn lemma_step_arm(entries: Seq<AggregateEntry>, v: Seq<ListedFn>, k: int, n: nat)
    requires
        0 <= k < n <= ir::aggregate_names(entries).len(),
        emit_lib::aggregate_arm(entries, v, k as nat) is Some,
    ensures
        words::has_piece(emit_lib::step_arms(entries, v, n), step_piece(
            entries,
            k,
            emit_lib::aggregate_arm(entries, v, k as nat)->0,
        )),
    decreases n,
{
    let before = emit_lib::step_arms(entries, v, (n - 1) as nat);
    let piece = step_piece(
            entries,
            k,
            emit_lib::aggregate_arm(entries, v, k as nat)->0,
        );
    if k == n - 1 {
        words::lemma_piece_added(before, piece);
    } else {
        lemma_step_arm(entries, v, k, (n - 1) as nat);
        let added = match emit_lib::aggregate_arm(entries, v, (n - 1) as nat) {
            Some(id) => step_piece(entries, n - 1, id),
            None => Seq::empty(),
        };
        words::lemma_piece_kept(before, added, piece);
    }
}

proof fn lemma_final_arm(entries: Seq<AggregateEntry>, v: Seq<ListedFn>, k: int, n: nat)
    requires
        0 <= k < n <= ir::aggregate_names(entries).len(),
        emit_lib::aggregate_arm(entries, v, k as nat) is Some,
    ensures
        words::has_piece(emit_lib::final_arms(entries, v, n), final_piece(
            entries,
            k,
            emit_lib::aggregate_arm(entries, v, k as nat)->0,
        )),
    decreases n,
{
    let before = emit_lib::final_arms(entries, v, (n - 1) as nat);
    let piece = final_piece(
            entries,
            k,
            emit_lib::aggregate_arm(entries, v, k as nat)->0,
        );
    if k == n - 1 {
        words::lemma_piece_added(before, piece);
    } else {
        lemma_final_arm(entries, v, k, (n - 1) as nat);
        let added = match emit_lib::aggregate_arm(entries, v, (n - 1) as nat) {
            Some(id) => final_piece(entries, n - 1, id),
            None => Seq::empty(),
        };
        words::lemma_piece_kept(before, added, piece);
    }
}

/// An aggregate name that has arms is stepped and finished under a number that the manifest lists
/// it under.
pub proof fn law_aggregate_dispatched_as_listed(
    entries: Seq<AggregateEntry>,
    v: Seq<ListedFn>,
    k: int,
)
    requires
        0 <= k < ir::aggregate_names(entries).len(),
        emit_lib::aggregate_arm(entries, v, k as nat) is Some,
    ensures
        ({
            let id = emit_lib::aggregate_arm(entries, v, k as nat)->0;
            let n = ir::aggregate_names(entries).len();
            let base = listing::AGGREGATE_BASE as nat;
            &&& words::has_piece(
                emit_lib::step_arms(entries, v, n),
                step_piece(entries, k, id),
            )
            &&& words::has_piece(
                emit_lib::final_arms(entries, v, n),
                final_piece(entries, k, id),
            )
            &&& words::has_piece(
                listing::aggregate_entries(v, base, false, v.len()),
                listing::aggregate_entry(
                    id,
                    ir::aggregate_names(entries)[k].0,
                    v[id - base].num_args,
                    false,
                ),
            )
        }),
{
    let id = emit_lib::aggregate_arm(entries, v, k as nat)->0;
    let n = ir::aggregate_names(entries).len();
    let base = listing::AGGREGATE_BASE as nat;
    lemma_step_arm(entries, v, k, n);
    lemma_final_arm(entries, v, k, n);
    listing::law_id_listed(v, base, ir::firsts(ir::aggregate_names(entries))[k]);
    lemma_aggregate_listed(v, base, false, id - base, v.len());
}

// ─── Window functions ───

proof fn lemma_window_arm(template: Seq<char>, taken: Seq<nat>, entries: Seq<WindowEntry>, v: Seq<ListedFn>, k: int, n: nat)
    requires
        0 <= k < n <= entries.len(),
        listing::arm_at(
            taken,
            ir::window_names(entries),
            v,
            listing::WINDOW_BASE as nat,
            k as nat,
        ) is Some,
    ensures
        words::has_piece(emit_lib::window_arms(template, taken, entries, v, n), emit_lib::window_arm_text(
            template,
            listing::arm_at(
            taken,
            ir::window_names(entries),
            v,
            listing::WINDOW_BASE as nat,
            k as nat,
        )->0,
        )),
    decreases n,
{
    let before = emit_lib::window_arms(template, taken, entries, v, (n - 1) as nat);
    let piece = emit_lib::window_arm_text(
            template,
            listing::arm_at(
            taken,
            ir::window_names(entries),
            v,
            listing::WINDOW_BASE as nat,
            k as nat,
        )->0,
        );
    if k == n - 1 {
        words::lemma_piece_added(before, piece);
    } else {
        lemma_window_arm(template, taken, entries, v, k, (n - 1) as nat);
        let added = match listing::arm_at(
            taken,
            ir::window_names(entries),
            v,
            listing::WINDOW_BASE as nat,
            (n - 1) as nat,
        ) {
            Some(id) => emit_lib::window_arm_text(template, id),
            None => Seq::empty(),
        };
        words::lemma_piece_kept(before, added, piece);
    }
}

proof fn lemma_compute(entries: Seq<WindowEntry>, v: Seq<ListedFn>, k: int, n: nat)
    requires
        0 <= k < n <= entries.len(),
        emit_window::window_arm(entries, v, k as nat) is Some,
    ensures
        words::has_piece(emit_window::computes(entries, v, n), emit_window::compute_window(
            entries[k],
            emit_window::window_arm(entries, v, k as nat)->0,
        )),
    decreases n,
{
    let before = emit_window::computes(entries, v, (n - 1) as nat);
    let piece = emit_window::compute_window(
            entries[k],
            emit_window::window_arm(entries, v, k as nat)->0,
        );
    if k == n - 1 {
        words::lemma_piece_added(before, piece);
    } else {
        lemma_compute(entries, v, k, (n - 1) as nat);
        let added = match emit_window::window_arm(entries, v, (n - 1) as nat) {
            Some(id) => emit_window::compute_window(entries[n - 1], id),
            None => Seq::empty(),
        };
        words::lemma_piece_kept(before, added, piece);
    }
}

/// A window function that has a value arm runs the function that computes it: the arm and that
/// function have one number, and it is one that the manifest lists the window function under.
pub proof fn law_window_dispatched_as_listed(
    entries: Seq<WindowEntry>,
    v: Seq<ListedFn>,
    k: int,
)
    requires
        0 <= k < entries.len(),
        emit_window::window_arm(entries, v, k as nat) is Some,
    ensures
        ({
            let id = emit_window::window_arm(entries, v, k as nat)->0;
            let base = listing::WINDOW_BASE as nat;
            &&& words::has_piece(
                emit_lib::window_arms(
                    t::WINDOW_VALUE_ARM@,
                    Seq::empty(),
                    entries,
                    v,
                    entries.len(),
                ),
                emit_lib::window_arm_text(t::WINDOW_VALUE_ARM@, id),
            )
            &&& words::has_piece(
                emit_window::computes(entries, v, entries.len()),
                emit_window::compute_window(entries[k], id),
            )
            &&& words::has_piece(
                listing::aggregate_entries(v, base, true, v.len()),
                listing::aggregate_entry(
                    id,
                    entries[k].sql_name@,
                    v[id - base].num_args,
                    true,
                ),
            )
        }),
{
    let id = emit_window::window_arm(entries, v, k as nat)->0;
    let base = listing::WINDOW_BASE as nat;
    lemma_window_arm(t::WINDOW_VALUE_ARM@, Seq::empty(), entries, v, k, entries.len());
    lemma_compute(entries, v, k, entries.len());
    listing::law_id_listed(v, base, ir::window_names(entries)[k]);
    lemma_aggregate_listed(v, base, true, id - base, v.len());
}

// ─── Table functions ───

proof fn lemma_connect_arm(entries: Seq<UdtfEntry>, v: Seq<ListedFn>, k: int, n: nat)
    requires
        0 <= k < n <= entries.len(),
        emit_vtab::table_arm(entries, v, k as nat) is Some,
    ensures
        words::has_piece(emit_vtab::connect_arms(entries, v, n), emit_vtab::connect_arm(
            entries[k],
            emit_vtab::table_arm(entries, v, k as nat)->0,
        )),
    decreases n,
{
    let before = emit_vtab::connect_arms(entries, v, (n - 1) as nat);
    let piece = emit_vtab::connect_arm(
            entries[k],
            emit_vtab::table_arm(entries, v, k as nat)->0,
        );
    if k == n - 1 {
        words::lemma_piece_added(before, piece);
    } else {
        lemma_connect_arm(entries, v, k, (n - 1) as nat);
        let added = match emit_vtab::table_arm(entries, v, (n - 1) as nat) {
            Some(id) => emit_vtab::connect_arm(entries[n - 1], id),
            None => Seq::empty(),
        };
        words::lemma_piece_kept(before, added, piece);
    }
}

proof fn lemma_filter_arm(entries: Seq<UdtfEntry>, v: Seq<ListedFn>, k: int, n: nat)
    requires
        0 <= k < n <= entries.len(),
        emit_vtab::table_arm(entries, v, k as nat) is Some,
    ensures
        words::has_piece(emit_vtab::filter_arms(entries, v, n), emit_vtab::filter_arm(
            entries[k],
            emit_vtab::table_arm(entries, v, k as nat)->0,
        )),
    decreases n,
{
    let before = emit_vtab::filter_arms(entries, v, (n - 1) as nat);
    let piece = emit_vtab::filter_arm(
            entries[k],
            emit_vtab::table_arm(entries, v, k as nat)->0,
        );
    if k == n - 1 {
        words::lemma_piece_added(before, piece);
    } else {
        lemma_filter_arm(entries, v, k, (n - 1) as nat);
        let added = match emit_vtab::table_arm(entries, v, (n - 1) as nat) {
            Some(id) => emit_vtab::filter_arm(entries[n - 1], id),
            None => Seq::empty(),
        };
        words::lemma_piece_kept(before, added, piece);
    }
}

proof fn lemma_column_arm(entries: Seq<UdtfEntry>, v: Seq<ListedFn>, k: int, n: nat)
    requires
        0 <= k < n <= entries.len(),
        emit_vtab::table_arm(entries, v, k as nat) is Some,
    ensures
        words::has_piece(emit_vtab::column_arms(entries, v, n), emit_vtab::column_arm(
            entries[k],
            emit_vtab::table_arm(entries, v, k as nat)->0,
        )),
    decreases n,
{
    let before = emit_vtab::column_arms(entries, v, (n - 1) as nat);
    let piece = emit_vtab::column_arm(
            entries[k],
            emit_vtab::table_arm(entries, v, k as nat)->0,
        );
    if k == n - 1 {
        words::lemma_piece_added(before, piece);
    } else {
        lemma_column_arm(entries, v, k, (n - 1) as nat);
        let added = match emit_vtab::table_arm(entries, v, (n - 1) as nat) {
            Some(id) => emit_vtab::column_arm(entries[n - 1], id),
            None => Seq::empty(),
        };
        words::lemma_piece_kept(before, added, piece);
    }
}

/// A table function that has arms declares its table, is read and gives its columns under a
/// number that the manifest lists it under.
pub proof fn law_table_dispatched_as_listed(entries: Seq<UdtfEntry>, v: Seq<ListedFn>, k: int)
    requires
        0 <= k < entries.len(),
        emit_vtab::table_arm(entries, v, k as nat) is Some,
    ensures
        ({
            let id = emit_vtab::table_arm(entries, v, k as nat)->0;
            &&& words::has_piece(
                emit_vtab::connect_arms(entries, v, entries.len()),
                emit_vtab::connect_arm(entries[k], id),
            )
            &&& words::has_piece(
                emit_vtab::filter_arms(entries, v, entries.len()),
                emit_vtab::filter_arm(entries[k], id),
            )
            &&& words::has_piece(
                emit_vtab::column_arms(entries, v, entries.len()),
                emit_vtab::column_arm(entries[k], id),
            )
            &&& words::has_piece(
                listing::vtab_entries(v, v.len()),
                listing::vtab_entry(id, entries[k].sql_name@),
            )
        }),
{
    let id = emit_vtab::table_arm(entries, v, k as nat)->0;
    let base = listing::TABLE_BASE as nat;
    lemma_connect_arm(entries, v, k, entries.len());
    lemma_filter_arm(entries, v, k, entries.len());
    lemma_column_arm(entries, v, k, entries.len());
    listing::law_id_listed(v, base, ir::udtf_names(entries)[k]);
    lemma_table_listed(v, id - base, v.len());
}

// ─── Records ───

proof fn lemma_declared(names: Seq<Seq<char>>, k: int, n: nat)
    requires
        0 <= k < n <= names.len(),
        words::fresh(names, k),
    ensures
        words::has_piece(emit_wit::codecs_text(names, n), emit_wit::codec_text(names[k])),
    decreases n,
{
    let before = emit_wit::codecs_text(names, (n - 1) as nat);
    let piece = emit_wit::codec_text(names[k]);
    if k == n - 1 {
        words::lemma_piece_added(before, piece);
    } else {
        lemma_declared(names, k, (n - 1) as nat);
        let added = if words::fresh(names, n - 1) {
            emit_wit::codec_text(names[n - 1])
        } else {
            Seq::empty()
        };
        words::lemma_piece_kept(before, added, piece);
    }
}

proof fn lemma_implemented(primary: Seq<char>, records: Seq<RecordType>, k: int, n: nat)
    requires
        0 <= k < n <= records.len(),
    ensures
        words::has_piece(
            emit_records::codecs(primary, records, n),
            emit_records::codec(primary, records[k]),
        ),
    decreases n,
{
    let before = emit_records::codecs(primary, records, (n - 1) as nat);
    let piece = emit_records::codec(primary, records[k]);
    if k == n - 1 {
        words::lemma_piece_added(before, piece);
    } else {
        lemma_implemented(primary, records, k, (n - 1) as nat);
        words::lemma_piece_kept(before, emit_records::codec(primary, records[n - 1]), piece);
    }
}

/// The functions that decode and encode a record are declared in the world and implemented in the
/// source, where the record is the first of its name.
pub proof fn law_codecs_declared_and_implemented(
    primary: Seq<char>,
    records: Seq<RecordType>,
    k: int,
)
    requires
        0 <= k < records.len(),
        words::fresh(type_sources::record_names(records), k),
    ensures
        words::has_piece(
            emit_wit::codecs_text(type_sources::record_names(records), records.len()),
            emit_wit::codec_text(records[k].kebab_name@),
        ),
        words::has_piece(
            emit_records::codecs(primary, records, records.len()),
            emit_records::codec(primary, records[k]),
        ),
{
    lemma_declared(type_sources::record_names(records), k, records.len());
    lemma_implemented(primary, records, k, records.len());
}

} // verus!
