//! Where the arms and the entries of a bridge stand in its source.

use vstd::prelude::*;
use vstd::string::*;

use crate::ir::{self, AggregateEntry, BridgePlan, DispatchEntry, RecordType, UdtfEntry, UdtfOutputRow, WindowEntry};
use crate::sqlite::emit_lib;
use crate::sqlite::emit_records;
use crate::sqlite::emit_vtab;
use crate::sqlite::emit_window;
use crate::sqlite::lib_templates as t;
use crate::sqlite::listing::{self, ListedFn};
use crate::sqlite::vtab;
use crate::text;
use crate::words;

verus! {

/// The arms of scalars stand in the call of scalars.
pub proof fn law_scalar_arms_called(
    bridge_struct: Seq<char>,
    entries: Seq<(DispatchEntry, bool)>,
    scalars: Seq<ListedFn>,
)
    ensures
        ({
            let s = emit_lib::scalar_impl(bridge_struct, entries, scalars);
            let arms = emit_lib::scalar_arms(entries, scalars, entries.len());
            &&& words::has_piece(
                s,
                arms + "            _ => Err(stubbed(\"scalar-function\", func_id)),"@,
            )
        }),
{
    lemma_scalar_impl(bridge_struct, emit_lib::scalar_arms(entries, scalars, entries.len()));
}

/// The arms of aggregates stand in their steps and in their finalizations, behind them those of
/// window functions, which alone have values and inverses.
pub proof fn law_aggregate_arms_called(
    bridge_struct: Seq<char>,
    entries: Seq<AggregateEntry>,
    aggregates: Seq<ListedFn>,
    window_entries: Seq<WindowEntry>,
    windows: Seq<ListedFn>,
)
    ensures
        ({
            let s = emit_lib::aggregate_impl(
                bridge_struct,
                entries,
                aggregates,
                window_entries,
                windows,
            );
            let n = ir::aggregate_names(entries).len();
            let m = window_entries.len();
            let taken = emit_lib::aggregate_arm_ids(entries, aggregates, n);
            let none = Seq::<nat>::empty();
            let step = emit_lib::step_arms(entries, aggregates, n) + emit_lib::window_arms(
                t::WINDOW_STEP_ARM@,
                taken,
                window_entries,
                windows,
                m,
            );
            let fin = emit_lib::final_arms(entries, aggregates, n) + emit_lib::window_arms(
                t::WINDOW_FINALIZE_ARM@,
                taken,
                window_entries,
                windows,
                m,
            );
            let value = emit_lib::window_arms(
                t::WINDOW_VALUE_ARM@,
                none,
                window_entries,
                windows,
                m,
            );
            let inverse = emit_lib::window_arms(
                t::WINDOW_INVERSE_ARM@,
                none,
                window_entries,
                windows,
                m,
            );
            &&& words::has_piece(
                s,
                step + "            _ => Err(stubbed(\"aggregate-function step\", func_id)),"@,
            )
            &&& words::has_piece(
                s,
                fin + "            _ => Err(stubbed(\"aggregate-function finalize\", func_id)),"@,
            )
            &&& words::has_piece(
                s,
                value
                    + "            _ => Err(stubbed(\"aggregate-function value (window mode not wired)\", func_id)),"@,
            )
            &&& words::has_piece(
                s,
                inverse
                    + "            _ => Err(stubbed(\"aggregate-function inverse (window mode not wired)\", func_id)),"@,
            )
        }),
{
    let n = ir::aggregate_names(entries).len();
    let m = window_entries.len();
    let taken = emit_lib::aggregate_arm_ids(entries, aggregates, n);
    let none = Seq::<nat>::empty();
    let step = emit_lib::step_arms(entries, aggregates, n) + emit_lib::window_arms(
        t::WINDOW_STEP_ARM@,
        taken,
        window_entries,
        windows,
        m,
    );
    let fin = emit_lib::final_arms(entries, aggregates, n) + emit_lib::window_arms(
        t::WINDOW_FINALIZE_ARM@,
        taken,
        window_entries,
        windows,
        m,
    );
    let value = emit_lib::window_arms(t::WINDOW_VALUE_ARM@, none, window_entries, windows, m);
    let inverse = emit_lib::window_arms(t::WINDOW_INVERSE_ARM@, none, window_entries, windows, m);
    lemma_aggregate_impl_step(bridge_struct, step, fin, value, inverse);
    lemma_aggregate_impl_final(bridge_struct, step, fin, value, inverse);
    lemma_aggregate_impl_value(bridge_struct, step, fin, value, inverse);
    lemma_aggregate_impl_inverse(bridge_struct, step, fin, value, inverse);
}

/// A step of a window function keeps its row, a value computes the kept rows with the function of
/// its number, and a finalization drops what was kept.
pub proof fn law_window_arms(id: nat)
    ensures
        ({
            let s = emit_lib::window_arm_text(t::WINDOW_STEP_ARM@, id);
            &&& words::has_piece(s, words::decimal(id) + " => "@)
            &&& words::has_piece(s, "push_window_row(context_id, args);"@)
        }),
        ({
            let s = emit_lib::window_arm_text(t::WINDOW_VALUE_ARM@, id);
            &&& words::has_piece(s, words::decimal(id) + " => "@)
            &&& words::has_piece(
                s,
                "let results = "@ + "compute_window_"@ + words::decimal(id) + "(&rows)?;"@,
            )
            &&& words::has_piece(s, "set_window_results(context_id, results);"@)
        }),
        ({
            let s = emit_lib::window_arm_text(t::WINDOW_FINALIZE_ARM@, id);
            &&& words::has_piece(s, words::decimal(id) + " => "@)
            &&& words::has_piece(s, "drop_window_state(context_id);"@)
        }),
{
    let d = words::decimal(id);
    let f = emit_window::compute_name(id);
    lemma_window_step_arm(d, f);
    lemma_window_value_arm(d, f);
    lemma_window_finalize_arm(d, f);
    assert("let results = "@ + f + "(&rows)?;"@ =~= "let results = "@ + "compute_window_"@ + d
        + "(&rows)?;"@);
}

/// The arms of tables stand each in the function that they answer: the schemas in connecting, the
/// reading in filtering, and the columns in giving a column.
pub proof fn law_table_arms_called(
    bridge_struct: Seq<char>,
    entries: Seq<UdtfEntry>,
    tables: Seq<ListedFn>,
)
    ensures
        ({
            let s = emit_vtab::vtab_impl(bridge_struct, entries, tables);
            let connect_arms = emit_vtab::connect_arms(entries, tables, entries.len());
            let filter_arms = emit_vtab::filter_arms(entries, tables, entries.len());
            let column_arms = emit_vtab::column_arms(entries, tables, entries.len());
            &&& words::has_piece(
                s,
                connect_arms + "            _ => Err(stubbed(\"vtab connect\", vtab_id)),"@,
            )
            &&& words::has_piece(
                s,
                filter_arms + "            _ => Err(stubbed(\"vtab filter\", vtab_id)),"@,
            )
            &&& words::has_piece(
                s,
                column_arms + "            _ => Err(stubbed(\"vtab column\", vtab_id)),"@,
            )
        }),
{
    lemma_vtab_impl(
        bridge_struct,
        emit_vtab::connect_arms(entries, tables, entries.len()),
        emit_vtab::filter_arms(entries, tables, entries.len()),
        emit_vtab::column_arms(entries, tables, entries.len()),
    );
}

/// The arms of a table bear its number: they answer with the schema of the table, read it, and
/// give the value at the number of a column where the column is visible, and null where it is not.
pub proof fn law_table_arms(entry: UdtfEntry, id: nat)
    ensures
        emit_vtab::connect_arm(entry, id)
            == "            "@ + words::decimal(id) + " => Ok("@
                + emit_vtab::literal(vtab::schema(entry.shape)) + ".to_string()),\n"@,
        emit_vtab::filter_arm(entry, id)
            == "            "@ + words::decimal(id) + " => {\n"@
                + emit_vtab::filter_body(entry, "                "@) + "\n            }\n"@,
        ({
            let s = emit_vtab::column_arm(entry, id);
            let visible_count = words::decimal(
                match entry.shape.output_row {
                    UdtfOutputRow::Record { fields } => fields@.len(),
                    _ => 1,
                },
            );
            &&& words::has_piece(s, words::decimal(id) + " => "@)
            &&& words::has_piece(s, "if (_col as usize) < "@ + visible_count + " "@)
            &&& words::has_piece(
                s,
                "Ok(row_cols.get(_col as usize).cloned().unwrap_or(SqlValue::Null))"@,
            )
        }),
{
    let d = words::decimal(id);
    lemma_connect_arm(d, emit_vtab::literal(vtab::schema(entry.shape)));
    lemma_arm(d, emit_vtab::filter_body(entry, "                "@));
    lemma_column_arm(d, words::decimal(vtab::visible_names(entry.shape.output_row).len()));
}

/// The manifest lists the scalars, then among the aggregates the aggregates and the window
/// functions, the tables and the record types, under the name and the version of the first
/// extension.
pub proof fn law_manifest(
    plan: BridgePlan,
    bridge_struct: Seq<char>,
    records: Seq<RecordType>,
    window_entries: Seq<WindowEntry>,
)
    requires
        plan.extensions@.len() > 0,
    ensures
        ({
            let s = emit_lib::metadata_impl(plan, bridge_struct, records, window_entries);
            let scalars = listing::scalars_of(plan);
            let aggregates = listing::aggregates_of(plan);
            let windows = listing::windows_of(plan, window_entries);
            let tables = listing::tables_of(plan);
            let scalar_entries = listing::scalar_entries(scalars, scalars.len());
            let agg_entries = listing::aggregate_entries(
                aggregates,
                1_000_000,
                false,
                aggregates.len(),
            )
                + listing::aggregate_entries(windows, 3_000_000, true, windows.len());
            let vtab_entries = listing::vtab_entries(tables, tables.len());
            let typed_value_entries = emit_records::typed_value_entries(records, records.len());
            let primary = plan.extensions@[0].name@;
            let version = plan.extensions@[0].version@;
            &&& words::has_piece(
                s,
                "let scalar_functions: Vec<ScalarFunctionSpec> = alloc::vec![\n"@ + scalar_entries
                    + "        ];"@,
            )
            &&& words::has_piece(
                s,
                "let aggregate_functions: Vec<AggregateFunctionSpec> = alloc::vec![\n"@
                    + agg_entries + "        ];"@,
            )
            &&& words::has_piece(
                s,
                "let vtabs: Vec<VtabSpec> = alloc::vec![\n"@ + vtab_entries + "        ];"@,
            )
            &&& words::has_piece(
                s,
                "let typed_values: Vec<TypedValueBinding> = alloc::vec![\n"@ + typed_value_entries
                    + "        ];"@,
            )
            &&& words::has_piece(s, "name: \""@ + primary + "\".into(),"@)
            &&& words::has_piece(s, "version: \""@ + version + "\".into(),"@)
        }),
{
    let scalars = listing::scalars_of(plan);
    let aggregates = listing::aggregates_of(plan);
    let windows = listing::windows_of(plan, window_entries);
    let tables = listing::tables_of(plan);
    lemma_metadata_impl(
        bridge_struct,
        if records.len() > 0 {
            t::TYPED_VALUE_USE@
        } else {
            ""@
        },
        listing::scalar_entries(scalars, scalars.len()),
        listing::aggregate_entries(aggregates, 1_000_000, false, aggregates.len())
            + listing::aggregate_entries(windows, 3_000_000, true, windows.len()),
        listing::vtab_entries(tables, tables.len()),
        emit_records::typed_value_entries(records, records.len()),
        plan.extensions@[0].name@,
        plan.extensions@[0].version@,
    );
}

proof fn lemma_holes_bridge_struct_arms(bridge_struct: Seq<char>, arms: Seq<char>)
    ensures
        ({
            let b = seq![("bridge_struct"@, bridge_struct), ("arms"@, arms)];
            &&& text::lookup_from(b, "bridge_struct"@, 0) == bridge_struct
            &&& text::lookup_from(b, "arms"@, 0) == arms
        }),
{
    reveal_strlit("bridge_struct");
    reveal_strlit("arms");
    reveal_with_fuel(text::lookup_from, 3);
    assert("bridge_struct"@.len() != "arms"@.len());
}

proof fn lemma_holes_bridge_struct_step_arms_final_arms_value_arms_inverse_arms(
    bridge_struct: Seq<char>,
    step_arms: Seq<char>,
    final_arms: Seq<char>,
    value_arms: Seq<char>,
    inverse_arms: Seq<char>,
)
    ensures
        ({
            let b = seq![("bridge_struct"@, bridge_struct), ("step_arms"@, step_arms), ("final_arms"@, final_arms), ("value_arms"@, value_arms), ("inverse_arms"@, inverse_arms)];
            &&& text::lookup_from(b, "bridge_struct"@, 0) == bridge_struct
            &&& text::lookup_from(b, "step_arms"@, 0) == step_arms
            &&& text::lookup_from(b, "final_arms"@, 0) == final_arms
            &&& text::lookup_from(b, "value_arms"@, 0) == value_arms
            &&& text::lookup_from(b, "inverse_arms"@, 0) == inverse_arms
        }),
{
    reveal_strlit("bridge_struct");
    reveal_strlit("step_arms");
    reveal_strlit("final_arms");
    reveal_strlit("value_arms");
    reveal_strlit("inverse_arms");
    reveal_with_fuel(text::lookup_from, 6);
    assert("bridge_struct"@.len() != "step_arms"@.len());
    assert("bridge_struct"@.len() != "final_arms"@.len());
    assert("bridge_struct"@.len() != "value_arms"@.len());
    assert("bridge_struct"@.len() != "inverse_arms"@.len());
    assert("step_arms"@.len() != "final_arms"@.len());
    assert("step_arms"@.len() != "value_arms"@.len());
    assert("step_arms"@.len() != "inverse_arms"@.len());
    assert("final_arms"@[0] != "value_arms"@[0]);
    assert("final_arms"@.len() != "inverse_arms"@.len());
    assert("value_arms"@.len() != "inverse_arms"@.len());
}

proof fn lemma_holes_bridge_struct_typed_value_use_scalar_entries_agg_entries_vtab_entries_typed_value_entries_primary_version(
    bridge_struct: Seq<char>,
    typed_value_use: Seq<char>,
    scalar_entries: Seq<char>,
    agg_entries: Seq<char>,
    vtab_entries: Seq<char>,
    typed_value_entries: Seq<char>,
    primary: Seq<char>,
    version: Seq<char>,
)
    ensures
        ({
            let b = seq![("bridge_struct"@, bridge_struct), ("typed_value_use"@, typed_value_use), ("scalar_entries"@, scalar_entries), ("agg_entries"@, agg_entries), ("vtab_entries"@, vtab_entries), ("typed_value_entries"@, typed_value_entries), ("primary"@, primary), ("version"@, version)];
            &&& text::lookup_from(b, "bridge_struct"@, 0) == bridge_struct
            &&& text::lookup_from(b, "typed_value_use"@, 0) == typed_value_use
            &&& text::lookup_from(b, "scalar_entries"@, 0) == scalar_entries
            &&& text::lookup_from(b, "agg_entries"@, 0) == agg_entries
            &&& text::lookup_from(b, "vtab_entries"@, 0) == vtab_entries
            &&& text::lookup_from(b, "typed_value_entries"@, 0) == typed_value_entries
            &&& text::lookup_from(b, "primary"@, 0) == primary
            &&& text::lookup_from(b, "version"@, 0) == version
        }),
{
    reveal_strlit("bridge_struct");
    reveal_strlit("typed_value_use");
    reveal_strlit("scalar_entries");
    reveal_strlit("agg_entries");
    reveal_strlit("vtab_entries");
    reveal_strlit("typed_value_entries");
    reveal_strlit("primary");
    reveal_strlit("version");
    reveal_with_fuel(text::lookup_from, 9);
    assert("bridge_struct"@.len() != "typed_value_use"@.len());
    assert("bridge_struct"@.len() != "scalar_entries"@.len());
    assert("bridge_struct"@.len() != "agg_entries"@.len());
    assert("bridge_struct"@.len() != "vtab_entries"@.len());
    assert("bridge_struct"@.len() != "typed_value_entries"@.len());
    assert("bridge_struct"@.len() != "primary"@.len());
    assert("bridge_struct"@.len() != "version"@.len());
    assert("typed_value_use"@.len() != "scalar_entries"@.len());
    assert("typed_value_use"@.len() != "agg_entries"@.len());
    assert("typed_value_use"@.len() != "vtab_entries"@.len());
    assert("typed_value_use"@.len() != "typed_value_entries"@.len());
    assert("typed_value_use"@.len() != "primary"@.len());
    assert("typed_value_use"@.len() != "version"@.len());
    assert("scalar_entries"@.len() != "agg_entries"@.len());
    assert("scalar_entries"@.len() != "vtab_entries"@.len());
    assert("scalar_entries"@.len() != "typed_value_entries"@.len());
    assert("scalar_entries"@.len() != "primary"@.len());
    assert("scalar_entries"@.len() != "version"@.len());
    assert("agg_entries"@.len() != "vtab_entries"@.len());
    assert("agg_entries"@.len() != "typed_value_entries"@.len());
    assert("agg_entries"@.len() != "primary"@.len());
    assert("agg_entries"@.len() != "version"@.len());
    assert("vtab_entries"@.len() != "typed_value_entries"@.len());
    assert("vtab_entries"@.len() != "primary"@.len());
    assert("vtab_entries"@.len() != "version"@.len());
    assert("typed_value_entries"@.len() != "primary"@.len());
    assert("typed_value_entries"@.len() != "version"@.len());
    assert("primary"@[0] != "version"@[0]);
}

proof fn lemma_holes_bridge_struct_connect_arms_filter_arms_column_arms(
    bridge_struct: Seq<char>,
    connect_arms: Seq<char>,
    filter_arms: Seq<char>,
    column_arms: Seq<char>,
)
    ensures
        ({
            let b = seq![("bridge_struct"@, bridge_struct), ("connect_arms"@, connect_arms), ("filter_arms"@, filter_arms), ("column_arms"@, column_arms)];
            &&& text::lookup_from(b, "bridge_struct"@, 0) == bridge_struct
            &&& text::lookup_from(b, "connect_arms"@, 0) == connect_arms
            &&& text::lookup_from(b, "filter_arms"@, 0) == filter_arms
            &&& text::lookup_from(b, "column_arms"@, 0) == column_arms
        }),
{
    reveal_strlit("bridge_struct");
    reveal_strlit("connect_arms");
    reveal_strlit("filter_arms");
    reveal_strlit("column_arms");
    reveal_with_fuel(text::lookup_from, 5);
    assert("bridge_struct"@.len() != "connect_arms"@.len());
    assert("bridge_struct"@.len() != "filter_arms"@.len());
    assert("bridge_struct"@.len() != "column_arms"@.len());
    assert("connect_arms"@.len() != "filter_arms"@.len());
    assert("connect_arms"@.len() != "column_arms"@.len());
    assert("filter_arms"@[0] != "column_arms"@[0]);
}

proof fn lemma_holes_id_body(id: Seq<char>, body: Seq<char>)
    ensures
        ({
            let b = seq![("id"@, id), ("body"@, body)];
            &&& text::lookup_from(b, "id"@, 0) == id
            &&& text::lookup_from(b, "body"@, 0) == body
        }),
{
    reveal_strlit("id");
    reveal_strlit("body");
    reveal_with_fuel(text::lookup_from, 3);
    assert("id"@.len() != "body"@.len());
}

proof fn lemma_holes_id_schema_lit(id: Seq<char>, schema_lit: Seq<char>)
    ensures
        ({
            let b = seq![("id"@, id), ("schema_lit"@, schema_lit)];
            &&& text::lookup_from(b, "id"@, 0) == id
            &&& text::lookup_from(b, "schema_lit"@, 0) == schema_lit
        }),
{
    reveal_strlit("id");
    reveal_strlit("schema_lit");
    reveal_with_fuel(text::lookup_from, 3);
    assert("id"@.len() != "schema_lit"@.len());
}

proof fn lemma_holes_id_compute_fn(id: Seq<char>, compute_fn: Seq<char>)
    ensures
        ({
            let b = seq![("id"@, id), ("compute_fn"@, compute_fn)];
            &&& text::lookup_from(b, "id"@, 0) == id
            &&& text::lookup_from(b, "compute_fn"@, 0) == compute_fn
        }),
{
    reveal_strlit("id");
    reveal_strlit("compute_fn");
    reveal_with_fuel(text::lookup_from, 3);
    assert("id"@.len() != "compute_fn"@.len());
}

proof fn lemma_holes_id_visible_count(id: Seq<char>, visible_count: Seq<char>)
    ensures
        ({
            let b = seq![("id"@, id), ("visible_count"@, visible_count)];
            &&& text::lookup_from(b, "id"@, 0) == id
            &&& text::lookup_from(b, "visible_count"@, 0) == visible_count
        }),
{
    reveal_strlit("id");
    reveal_strlit("visible_count");
    reveal_with_fuel(text::lookup_from, 3);
    assert("id"@.len() != "visible_count"@.len());
}

proof fn lemma_scalar_impl(bridge_struct: Seq<char>, arms: Seq<char>)
    ensures
        words::has_piece(
            text::fill(t::SCALAR_IMPL@, seq![("bridge_struct"@, bridge_struct), ("arms"@, arms)]),
            arms + "            _ => Err(stubbed(\"scalar-function\", func_id)),"@,
        ),
{
    let s = t::SCALAR_IMPL@;
    reveal_strlit(r#"
impl ScalarFunctionGuest for {bridge_struct} {{
    fn call(func_id: u64, args: Vec<SqlValue>) -> Result<SqlValue, String> {{
        // SQL-style null propagation. Functions whose NULL inputs
        // are MEANINGFUL would need to opt out; PostGIS scalars
        // are uniformly null-propagating in practice.
        if args.iter().any(|v| matches!(v, SqlValue::Null)) {{
            return Ok(SqlValue::Null);
        }}
        match func_id {{
{arms}            _ => Err(stubbed("scalar-function", func_id)),
        }}
    }}
}}

"#);
    reveal_with_fuel(text::plain_to, 31);
    let b = seq![("bridge_struct"@, bridge_struct), ("arms"@, arms)];
    lemma_holes_bridge_struct_arms(bridge_struct, arms);
    assert(words::has_piece(
        text::fill(t::SCALAR_IMPL@, b),
        arms + "            _ => Err(stubbed(\"scalar-function\", func_id)),"@,
    )) by {
        let before = text::lemma_fill_reaches(s, b, 426);
        reveal_strlit("\n        match func_id ");
        assert(s.subrange(426, 449) =~= "\n        match func_id "@);
        text::lemma_fill_run(s, b, 426, "\n        match func_id "@);
        assert(text::fill_from(s, b, 449) == seq!['{'] + text::fill_from(s, b, 451));
        reveal_strlit("\n");
        assert(s.subrange(451, 452) =~= "\n"@);
        text::lemma_fill_run(s, b, 451, "\n"@);
        reveal_strlit("arms");
        assert(s.subrange(453, 457) =~= "arms"@);
        text::lemma_fill_hole(s, b, 452, "arms"@);
        reveal_strlit("            _ => Err(stubbed(\"");
        assert(s.subrange(458, 488) =~= "            _ => Err(stubbed(\""@);
        text::lemma_fill_run(s, b, 458, "            _ => Err(stubbed(\""@);
        reveal_strlit("scalar-function\", func_id)),");
        assert(s.subrange(488, 516) =~= "scalar-function\", func_id)),"@);
        text::lemma_fill_run(s, b, 488, "scalar-function\", func_id)),"@);
        let rest = text::fill_from(s, b, 516);
        let part = arms + "            _ => Err(stubbed(\"scalar-function\", func_id)),"@;
        reveal_strlit("            _ => Err(stubbed(\"scalar-function\", func_id)),");
        assert((arms + ("            _ => Err(stubbed(\""@ + ("scalar-function\", func_id)),"@ + rest)))
            =~= part + rest);
        assert(before + ("\n        match func_id "@ + (seq!['{'] + ("\n"@ + (part + rest))))
            =~= (before + "\n        match func_id "@ + seq!['{'] + "\n"@) + (part + rest));
        words::lemma_piece_between(
            before + "\n        match func_id "@ + seq!['{'] + "\n"@,
            part,
            rest,
        );
    }
}

#[verifier::rlimit(80)]
proof fn lemma_aggregate_impl_step(
    bridge_struct: Seq<char>,
    step_arms: Seq<char>,
    final_arms: Seq<char>,
    value_arms: Seq<char>,
    inverse_arms: Seq<char>,
)
    ensures
        words::has_piece(
            text::fill(
                t::AGGREGATE_IMPL@,
                seq![("bridge_struct"@, bridge_struct), ("step_arms"@, step_arms), ("final_arms"@, final_arms), ("value_arms"@, value_arms), ("inverse_arms"@, inverse_arms)],
            ),
            step_arms + "            _ => Err(stubbed(\"aggregate-function step\", func_id)),"@,
        ),
{
    let s = t::AGGREGATE_IMPL@;
    reveal_strlit(r#"impl AggregateGuest for {bridge_struct} {{
    fn step(func_id: u64, context_id: u64, args: Vec<SqlValue>) -> Result<(), String> {{
        // Null-row contributions are skipped (SQL aggregate semantics).
        if args.iter().any(|v| matches!(v, SqlValue::Null)) {{
            return Ok(());
        }}
        match func_id {{
{step_arms}            _ => Err(stubbed("aggregate-function step", func_id)),
        }}
    }}
    fn finalize(func_id: u64, context_id: u64) -> Result<SqlValue, String> {{
        match func_id {{
{final_arms}            _ => Err(stubbed("aggregate-function finalize", func_id)),
        }}
    }}
    fn value(func_id: u64, context_id: u64) -> Result<SqlValue, String> {{
        // Bind to a `_` shadow so this compiles warning-clean when
        // no window arms reference context_id (mobilitydb has 0
        // window functions; the match arm list is empty).
        let _ = context_id;
        match func_id {{
{value_arms}            _ => Err(stubbed("aggregate-function value (window mode not wired)", func_id)),
        }}
    }}
    fn inverse(func_id: u64, context_id: u64, _args: Vec<SqlValue>) -> Result<(), String> {{
        // Whole-partition window functions (DD2 in
        // PLAN-window-substrate.md) are frame-invariant; inverse is
        // a no-op. Non-window aggregates never reach this path
        // (sqlite only calls inverse on window-mode aggregates).
        let _ = context_id;
        match func_id {{
{inverse_arms}            _ => Err(stubbed("aggregate-function inverse (window mode not wired)", func_id)),
        }}
    }}
}}

"#);
    reveal_with_fuel(text::plain_to, 31);
    let b = seq![("bridge_struct"@, bridge_struct), ("step_arms"@, step_arms), ("final_arms"@, final_arms), ("value_arms"@, value_arms), ("inverse_arms"@, inverse_arms)];
    lemma_holes_bridge_struct_step_arms_final_arms_value_arms_inverse_arms(
        bridge_struct,
        step_arms,
        final_arms,
        value_arms,
        inverse_arms,
    );
    assert(words::has_piece(
        text::fill(t::AGGREGATE_IMPL@, b),
        step_arms + "            _ => Err(stubbed(\"aggregate-function step\", func_id)),"@,
    )) by {
        let before = text::lemma_fill_reaches(s, b, 305);
        reveal_strlit("\n        match func_id ");
        assert(s.subrange(305, 328) =~= "\n        match func_id "@);
        text::lemma_fill_run(s, b, 305, "\n        match func_id "@);
        assert(text::fill_from(s, b, 328) == seq!['{'] + text::fill_from(s, b, 330));
        reveal_strlit("\n");
        assert(s.subrange(330, 331) =~= "\n"@);
        text::lemma_fill_run(s, b, 330, "\n"@);
        reveal_strlit("step_arms");
        assert(s.subrange(332, 341) =~= "step_arms"@);
        text::lemma_fill_hole(s, b, 331, "step_arms"@);
        reveal_strlit("            _ => Err(stubbed(\"");
        assert(s.subrange(342, 372) =~= "            _ => Err(stubbed(\""@);
        text::lemma_fill_run(s, b, 342, "            _ => Err(stubbed(\""@);
        reveal_strlit("aggregate-function step\", func");
        assert(s.subrange(372, 402) =~= "aggregate-function step\", func"@);
        text::lemma_fill_run(s, b, 372, "aggregate-function step\", func"@);
        reveal_strlit("_id)),");
        assert(s.subrange(402, 408) =~= "_id)),"@);
        text::lemma_fill_run(s, b, 402, "_id)),"@);
        let rest = text::fill_from(s, b, 408);
        let part = step_arms + "            _ => Err(stubbed(\"aggregate-function step\", func_id)),"@;
        reveal_strlit("            _ => Err(stubbed(\"aggregate-function step\", func_id)),");
        assert((
            step_arms
                + (
                    "            _ => Err(stubbed(\""@
                        + ("aggregate-function step\", func"@ + ("_id)),"@ + rest))
                )
        )
            =~= part + rest);
        assert(before + ("\n        match func_id "@ + (seq!['{'] + ("\n"@ + (part + rest))))
            =~= (before + "\n        match func_id "@ + seq!['{'] + "\n"@) + (part + rest));
        words::lemma_piece_between(
            before + "\n        match func_id "@ + seq!['{'] + "\n"@,
            part,
            rest,
        );
    }
}

#[verifier::rlimit(80)]
proof fn lemma_aggregate_impl_final(
    bridge_struct: Seq<char>,
    step_arms: Seq<char>,
    final_arms: Seq<char>,
    value_arms: Seq<char>,
    inverse_arms: Seq<char>,
)
    ensures
        words::has_piece(
            text::fill(
                t::AGGREGATE_IMPL@,
                seq![("bridge_struct"@, bridge_struct), ("step_arms"@, step_arms), ("final_arms"@, final_arms), ("value_arms"@, value_arms), ("inverse_arms"@, inverse_arms)],
            ),
            final_arms
                + "            _ => Err(stubbed(\"aggregate-function finalize\", func_id)),"@,
        ),
{
    let s = t::AGGREGATE_IMPL@;
    reveal_strlit(r#"impl AggregateGuest for {bridge_struct} {{
    fn step(func_id: u64, context_id: u64, args: Vec<SqlValue>) -> Result<(), String> {{
        // Null-row contributions are skipped (SQL aggregate semantics).
        if args.iter().any(|v| matches!(v, SqlValue::Null)) {{
            return Ok(());
        }}
        match func_id {{
{step_arms}            _ => Err(stubbed("aggregate-function step", func_id)),
        }}
    }}
    fn finalize(func_id: u64, context_id: u64) -> Result<SqlValue, String> {{
        match func_id {{
{final_arms}            _ => Err(stubbed("aggregate-function finalize", func_id)),
        }}
    }}
    fn value(func_id: u64, context_id: u64) -> Result<SqlValue, String> {{
        // Bind to a `_` shadow so this compiles warning-clean when
        // no window arms reference context_id (mobilitydb has 0
        // window functions; the match arm list is empty).
        let _ = context_id;
        match func_id {{
{value_arms}            _ => Err(stubbed("aggregate-function value (window mode not wired)", func_id)),
        }}
    }}
    fn inverse(func_id: u64, context_id: u64, _args: Vec<SqlValue>) -> Result<(), String> {{
        // Whole-partition window functions (DD2 in
        // PLAN-window-substrate.md) are frame-invariant; inverse is
        // a no-op. Non-window aggregates never reach this path
        // (sqlite only calls inverse on window-mode aggregates).
        let _ = context_id;
        match func_id {{
{inverse_arms}            _ => Err(stubbed("aggregate-function inverse (window mode not wired)", func_id)),
        }}
    }}
}}

"#);
    reveal_with_fuel(text::plain_to, 31);
    reveal_with_fuel(text::passes_to, 46);
    let b = seq![("bridge_struct"@, bridge_struct), ("step_arms"@, step_arms), ("final_arms"@, final_arms), ("value_arms"@, value_arms), ("inverse_arms"@, inverse_arms)];
    lemma_holes_bridge_struct_step_arms_final_arms_value_arms_inverse_arms(
        bridge_struct,
        step_arms,
        final_arms,
        value_arms,
        inverse_arms,
    );
    assert(words::has_piece(
        text::fill(t::AGGREGATE_IMPL@, b),
        final_arms + "            _ => Err(stubbed(\"aggregate-function finalize\", func_id)),"@,
    )) by {
        let before = text::lemma_fill_reaches(s, b, 426);
        let past_426 = text::lemma_fill_passes(s, b, 426, 471);
        let past_471 = text::lemma_fill_passes(s, b, 471, 516);
        let past_516 = text::lemma_fill_passes(s, b, 516, 530);
        reveal_strlit("final_arms");
        assert(s.subrange(531, 541) =~= "final_arms"@);
        text::lemma_fill_hole(s, b, 530, "final_arms"@);
        reveal_strlit("            _ => Err(stubbed(\"");
        assert(s.subrange(542, 572) =~= "            _ => Err(stubbed(\""@);
        text::lemma_fill_run(s, b, 542, "            _ => Err(stubbed(\""@);
        reveal_strlit("aggregate-function finalize\", ");
        assert(s.subrange(572, 602) =~= "aggregate-function finalize\", "@);
        text::lemma_fill_run(s, b, 572, "aggregate-function finalize\", "@);
        reveal_strlit("func_id)),");
        assert(s.subrange(602, 612) =~= "func_id)),"@);
        text::lemma_fill_run(s, b, 602, "func_id)),"@);
        let rest = text::fill_from(s, b, 612);
        let part = final_arms + "            _ => Err(stubbed(\"aggregate-function finalize\", func_id)),"@;
        reveal_strlit("            _ => Err(stubbed(\"aggregate-function finalize\", func_id)),");
        assert((
            final_arms
                + (
                    "            _ => Err(stubbed(\""@
                        + ("aggregate-function finalize\", "@ + ("func_id)),"@ + rest))
                )
        )
            =~= part + rest);
        assert(before + (past_426 + (past_471 + (past_516 + (part + rest))))
            =~= (before + past_426 + past_471 + past_516) + (part + rest));
        words::lemma_piece_between(before + past_426 + past_471 + past_516, part, rest);
    }
}

#[verifier::rlimit(80)]
proof fn lemma_aggregate_impl_value(
    bridge_struct: Seq<char>,
    step_arms: Seq<char>,
    final_arms: Seq<char>,
    value_arms: Seq<char>,
    inverse_arms: Seq<char>,
)
    ensures
        words::has_piece(
            text::fill(
                t::AGGREGATE_IMPL@,
                seq![("bridge_struct"@, bridge_struct), ("step_arms"@, step_arms), ("final_arms"@, final_arms), ("value_arms"@, value_arms), ("inverse_arms"@, inverse_arms)],
            ),
            value_arms
                + "            _ => Err(stubbed(\"aggregate-function value (window mode not wired)\", func_id)),"@,
        ),
{
    let s = t::AGGREGATE_IMPL@;
    reveal_strlit(r#"impl AggregateGuest for {bridge_struct} {{
    fn step(func_id: u64, context_id: u64, args: Vec<SqlValue>) -> Result<(), String> {{
        // Null-row contributions are skipped (SQL aggregate semantics).
        if args.iter().any(|v| matches!(v, SqlValue::Null)) {{
            return Ok(());
        }}
        match func_id {{
{step_arms}            _ => Err(stubbed("aggregate-function step", func_id)),
        }}
    }}
    fn finalize(func_id: u64, context_id: u64) -> Result<SqlValue, String> {{
        match func_id {{
{final_arms}            _ => Err(stubbed("aggregate-function finalize", func_id)),
        }}
    }}
    fn value(func_id: u64, context_id: u64) -> Result<SqlValue, String> {{
        // Bind to a `_` shadow so this compiles warning-clean when
        // no window arms reference context_id (mobilitydb has 0
        // window functions; the match arm list is empty).
        let _ = context_id;
        match func_id {{
{value_arms}            _ => Err(stubbed("aggregate-function value (window mode not wired)", func_id)),
        }}
    }}
    fn inverse(func_id: u64, context_id: u64, _args: Vec<SqlValue>) -> Result<(), String> {{
        // Whole-partition window functions (DD2 in
        // PLAN-window-substrate.md) are frame-invariant; inverse is
        // a no-op. Non-window aggregates never reach this path
        // (sqlite only calls inverse on window-mode aggregates).
        let _ = context_id;
        match func_id {{
{inverse_arms}            _ => Err(stubbed("aggregate-function inverse (window mode not wired)", func_id)),
        }}
    }}
}}

"#);
    reveal_with_fuel(text::plain_to, 31);
    reveal_with_fuel(text::passes_to, 46);
    let b = seq![("bridge_struct"@, bridge_struct), ("step_arms"@, step_arms), ("final_arms"@, final_arms), ("value_arms"@, value_arms), ("inverse_arms"@, inverse_arms)];
    lemma_holes_bridge_struct_step_arms_final_arms_value_arms_inverse_arms(
        bridge_struct,
        step_arms,
        final_arms,
        value_arms,
        inverse_arms,
    );
    assert(words::has_piece(
        text::fill(t::AGGREGATE_IMPL@, b),
        value_arms
            + "            _ => Err(stubbed(\"aggregate-function value (window mode not wired)\", func_id)),"@,
    )) by {
        let before = text::lemma_fill_reaches(s, b, 630);
        let past_630 = text::lemma_fill_passes(s, b, 630, 675);
        let past_675 = text::lemma_fill_passes(s, b, 675, 720);
        let past_720 = text::lemma_fill_passes(s, b, 720, 765);
        let past_765 = text::lemma_fill_passes(s, b, 765, 810);
        let past_810 = text::lemma_fill_passes(s, b, 810, 855);
        let past_855 = text::lemma_fill_passes(s, b, 855, 900);
        let past_900 = text::lemma_fill_passes(s, b, 900, 945);
        let past_945 = text::lemma_fill_passes(s, b, 945, 951);
        reveal_strlit("value_arms");
        assert(s.subrange(952, 962) =~= "value_arms"@);
        text::lemma_fill_hole(s, b, 951, "value_arms"@);
        reveal_strlit("            _ => Err(stubbed(\"");
        assert(s.subrange(963, 993) =~= "            _ => Err(stubbed(\""@);
        text::lemma_fill_run(s, b, 963, "            _ => Err(stubbed(\""@);
        reveal_strlit("aggregate-function value (wind");
        assert(s.subrange(993, 1023) =~= "aggregate-function value (wind"@);
        text::lemma_fill_run(s, b, 993, "aggregate-function value (wind"@);
        reveal_strlit("ow mode not wired)\", func_id))");
        assert(s.subrange(1023, 1053) =~= "ow mode not wired)\", func_id))"@);
        text::lemma_fill_run(s, b, 1023, "ow mode not wired)\", func_id))"@);
        reveal_strlit(",");
        assert(s.subrange(1053, 1054) =~= ","@);
        text::lemma_fill_run(s, b, 1053, ","@);
        let rest = text::fill_from(s, b, 1054);
        let part = value_arms
            + "            _ => Err(stubbed(\"aggregate-function value (window mode not wired)\", func_id)),"@;
        reveal_strlit("            _ => Err(stubbed(\"aggregate-function value (window mode not wired)\", func_id)),");
        assert((
            value_arms
                + (
                    "            _ => Err(stubbed(\""@
                        + (
                            "aggregate-function value (wind"@
                                + ("ow mode not wired)\", func_id))"@ + (","@ + rest))
                        )
                )
        )
            =~= part + rest);
        assert(before
            + (
                past_630
                    + (
                        past_675
                            + (
                                past_720
                                    + (
                                        past_765
                                            + (
                                                past_810
                                                    + (
                                                        past_855
                                                            + (past_900 + (past_945 + (part + rest)))
                                                    )
                                            )
                                    )
                            )
                    )
            )
            =~= (
                before + past_630 + past_675 + past_720 + past_765 + past_810 + past_855 + past_900
                    + past_945
            ) + (part + rest));
        words::lemma_piece_between(
            before + past_630 + past_675 + past_720 + past_765 + past_810 + past_855 + past_900
                + past_945,
            part,
            rest,
        );
    }
}

#[verifier::rlimit(80)]
proof fn lemma_aggregate_impl_inverse(
    bridge_struct: Seq<char>,
    step_arms: Seq<char>,
    final_arms: Seq<char>,
    value_arms: Seq<char>,
    inverse_arms: Seq<char>,
)
    ensures
        words::has_piece(
            text::fill(
                t::AGGREGATE_IMPL@,
                seq![("bridge_struct"@, bridge_struct), ("step_arms"@, step_arms), ("final_arms"@, final_arms), ("value_arms"@, value_arms), ("inverse_arms"@, inverse_arms)],
            ),
            inverse_arms
                + "            _ => Err(stubbed(\"aggregate-function inverse (window mode not wired)\", func_id)),"@,
        ),
{
    let s = t::AGGREGATE_IMPL@;
    reveal_strlit(r#"impl AggregateGuest for {bridge_struct} {{
    fn step(func_id: u64, context_id: u64, args: Vec<SqlValue>) -> Result<(), String> {{
        // Null-row contributions are skipped (SQL aggregate semantics).
        if args.iter().any(|v| matches!(v, SqlValue::Null)) {{
            return Ok(());
        }}
        match func_id {{
{step_arms}            _ => Err(stubbed("aggregate-function step", func_id)),
        }}
    }}
    fn finalize(func_id: u64, context_id: u64) -> Result<SqlValue, String> {{
        match func_id {{
{final_arms}            _ => Err(stubbed("aggregate-function finalize", func_id)),
        }}
    }}
    fn value(func_id: u64, context_id: u64) -> Result<SqlValue, String> {{
        // Bind to a `_` shadow so this compiles warning-clean when
        // no window arms reference context_id (mobilitydb has 0
        // window functions; the match arm list is empty).
        let _ = context_id;
        match func_id {{
{value_arms}            _ => Err(stubbed("aggregate-function value (window mode not wired)", func_id)),
        }}
    }}
    fn inverse(func_id: u64, context_id: u64, _args: Vec<SqlValue>) -> Result<(), String> {{
        // Whole-partition window functions (DD2 in
        // PLAN-window-substrate.md) are frame-invariant; inverse is
        // a no-op. Non-window aggregates never reach this path
        // (sqlite only calls inverse on window-mode aggregates).
        let _ = context_id;
        match func_id {{
{inverse_arms}            _ => Err(stubbed("aggregate-function inverse (window mode not wired)", func_id)),
        }}
    }}
}}

"#);
    reveal_with_fuel(text::plain_to, 31);
    reveal_with_fuel(text::passes_to, 46);
    let b = seq![("bridge_struct"@, bridge_struct), ("step_arms"@, step_arms), ("final_arms"@, final_arms), ("value_arms"@, value_arms), ("inverse_arms"@, inverse_arms)];
    lemma_holes_bridge_struct_step_arms_final_arms_value_arms_inverse_arms(
        bridge_struct,
        step_arms,
        final_arms,
        value_arms,
        inverse_arms,
    );
    assert(words::has_piece(
        text::fill(t::AGGREGATE_IMPL@, b),
        inverse_arms
            + "            _ => Err(stubbed(\"aggregate-function inverse (window mode not wired)\", func_id)),"@,
    )) by {
        let before = text::lemma_fill_reaches(s, b, 1072);
        let past_1072 = text::lemma_fill_passes(s, b, 1072, 1117);
        let past_1117 = text::lemma_fill_passes(s, b, 1117, 1162);
        let past_1162 = text::lemma_fill_passes(s, b, 1162, 1207);
        let past_1207 = text::lemma_fill_passes(s, b, 1207, 1252);
        let past_1252 = text::lemma_fill_passes(s, b, 1252, 1297);
        let past_1297 = text::lemma_fill_passes(s, b, 1297, 1342);
        let past_1342 = text::lemma_fill_passes(s, b, 1342, 1387);
        let past_1387 = text::lemma_fill_passes(s, b, 1387, 1432);
        let past_1432 = text::lemma_fill_passes(s, b, 1432, 1470);
        reveal_strlit("inverse_arms");
        assert(s.subrange(1471, 1483) =~= "inverse_arms"@);
        text::lemma_fill_hole(s, b, 1470, "inverse_arms"@);
        reveal_strlit("            _ => Err(stubbed(\"");
        assert(s.subrange(1484, 1514) =~= "            _ => Err(stubbed(\""@);
        text::lemma_fill_run(s, b, 1484, "            _ => Err(stubbed(\""@);
        reveal_strlit("aggregate-function inverse (wi");
        assert(s.subrange(1514, 1544) =~= "aggregate-function inverse (wi"@);
        text::lemma_fill_run(s, b, 1514, "aggregate-function inverse (wi"@);
        reveal_strlit("ndow mode not wired)\", func_id");
        assert(s.subrange(1544, 1574) =~= "ndow mode not wired)\", func_id"@);
        text::lemma_fill_run(s, b, 1544, "ndow mode not wired)\", func_id"@);
        reveal_strlit(")),");
        assert(s.subrange(1574, 1577) =~= ")),"@);
        text::lemma_fill_run(s, b, 1574, ")),"@);
        let rest = text::fill_from(s, b, 1577);
        let part = inverse_arms
            + "            _ => Err(stubbed(\"aggregate-function inverse (window mode not wired)\", func_id)),"@;
        reveal_strlit("            _ => Err(stubbed(\"aggregate-function inverse (window mode not wired)\", func_id)),");
        assert((
            inverse_arms
                + (
                    "            _ => Err(stubbed(\""@
                        + (
                            "aggregate-function inverse (wi"@
                                + ("ndow mode not wired)\", func_id"@ + (")),"@ + rest))
                        )
                )
        )
            =~= part + rest);
        assert(before
            + (
                past_1072
                    + (
                        past_1117
                            + (
                                past_1162
                                    + (
                                        past_1207
                                            + (
                                                past_1252
                                                    + (
                                                        past_1297
                                                            + (
                                                                past_1342
                                                                    + (
                                                                        past_1387
                                                                            + (
                                                                                past_1432
                                                                                    + (part + rest)
                                                                            )
                                                                    )
                                                            )
                                                    )
                                            )
                                    )
                            )
                    )
            )
            =~= (
                before + past_1072 + past_1117 + past_1162 + past_1207 + past_1252 + past_1297
                    + past_1342 + past_1387 + past_1432
            ) + (part + rest));
        words::lemma_piece_between(
            before + past_1072 + past_1117 + past_1162 + past_1207 + past_1252 + past_1297
                + past_1342 + past_1387 + past_1432,
            part,
            rest,
        );
    }
}

#[verifier::rlimit(60)]
proof fn lemma_metadata_impl(
    bridge_struct: Seq<char>,
    typed_value_use: Seq<char>,
    scalar_entries: Seq<char>,
    agg_entries: Seq<char>,
    vtab_entries: Seq<char>,
    typed_value_entries: Seq<char>,
    primary: Seq<char>,
    version: Seq<char>,
)
    ensures
        words::has_piece(
            text::fill(
                t::METADATA_IMPL@,
                seq![("bridge_struct"@, bridge_struct), ("typed_value_use"@, typed_value_use), ("scalar_entries"@, scalar_entries), ("agg_entries"@, agg_entries), ("vtab_entries"@, vtab_entries), ("typed_value_entries"@, typed_value_entries), ("primary"@, primary), ("version"@, version)],
            ),
            "let scalar_functions: Vec<ScalarFunctionSpec> = alloc::vec![\n"@ + scalar_entries
                + "        ];"@,
        ),
        words::has_piece(
            text::fill(
                t::METADATA_IMPL@,
                seq![("bridge_struct"@, bridge_struct), ("typed_value_use"@, typed_value_use), ("scalar_entries"@, scalar_entries), ("agg_entries"@, agg_entries), ("vtab_entries"@, vtab_entries), ("typed_value_entries"@, typed_value_entries), ("primary"@, primary), ("version"@, version)],
            ),
            "let aggregate_functions: Vec<AggregateFunctionSpec> = alloc::vec![\n"@ + agg_entries
                + "        ];"@,
        ),
        words::has_piece(
            text::fill(
                t::METADATA_IMPL@,
                seq![("bridge_struct"@, bridge_struct), ("typed_value_use"@, typed_value_use), ("scalar_entries"@, scalar_entries), ("agg_entries"@, agg_entries), ("vtab_entries"@, vtab_entries), ("typed_value_entries"@, typed_value_entries), ("primary"@, primary), ("version"@, version)],
            ),
            "let vtabs: Vec<VtabSpec> = alloc::vec![\n"@ + vtab_entries + "        ];"@,
        ),
        words::has_piece(
            text::fill(
                t::METADATA_IMPL@,
                seq![("bridge_struct"@, bridge_struct), ("typed_value_use"@, typed_value_use), ("scalar_entries"@, scalar_entries), ("agg_entries"@, agg_entries), ("vtab_entries"@, vtab_entries), ("typed_value_entries"@, typed_value_entries), ("primary"@, primary), ("version"@, version)],
            ),
            "let typed_values: Vec<TypedValueBinding> = alloc::vec![\n"@ + typed_value_entries
                + "        ];"@,
        ),
        words::has_piece(
            text::fill(
                t::METADATA_IMPL@,
                seq![("bridge_struct"@, bridge_struct), ("typed_value_use"@, typed_value_use), ("scalar_entries"@, scalar_entries), ("agg_entries"@, agg_entries), ("vtab_entries"@, vtab_entries), ("typed_value_entries"@, typed_value_entries), ("primary"@, primary), ("version"@, version)],
            ),
            "name: \""@ + primary + "\".into(),"@,
        ),
        words::has_piece(
            text::fill(
                t::METADATA_IMPL@,
                seq![("bridge_struct"@, bridge_struct), ("typed_value_use"@, typed_value_use), ("scalar_entries"@, scalar_entries), ("agg_entries"@, agg_entries), ("vtab_entries"@, vtab_entries), ("typed_value_entries"@, typed_value_entries), ("primary"@, primary), ("version"@, version)],
            ),
            "version: \""@ + version + "\".into(),"@,
        ),
{
    let s = t::METADATA_IMPL@;
    reveal_strlit(r#"impl MetadataGuest for {bridge_struct} {{
    fn describe() -> Manifest {{
        let det = FunctionFlags::DETERMINISTIC;
        let utf8 = FunctionFlags::empty();

        let _ = utf8;
{typed_value_use}
        let scalar_functions: Vec<ScalarFunctionSpec> = alloc::vec![
{scalar_entries}        ];
        let aggregate_functions: Vec<AggregateFunctionSpec> = alloc::vec![
{agg_entries}        ];
        let vtabs: Vec<VtabSpec> = alloc::vec![
{vtab_entries}        ];
        let typed_values: Vec<TypedValueBinding> = alloc::vec![
{typed_value_entries}        ];

        Manifest {{
            name: "{primary}".into(),
            version: "{version}".into(),
            scalar_functions,
            aggregate_functions,
            collations: alloc::vec![],
            vtabs,
            dot_commands: alloc::vec![],
            has_authorizer: false,
            has_update_hook: false,
            has_commit_hook: false,
            has_wal_hook: false,
            wal_hook_id: 0,
            declared_capabilities: alloc::vec![],
            optional_capabilities: alloc::vec![],
            preferred_prefix: None,
            prefix_expansion: None,
            typed_values,
        }}
    }}
}}

"#);
    reveal_with_fuel(text::plain_to, 31);
    reveal_with_fuel(text::passes_to, 46);
    let b = seq![("bridge_struct"@, bridge_struct), ("typed_value_use"@, typed_value_use), ("scalar_entries"@, scalar_entries), ("agg_entries"@, agg_entries), ("vtab_entries"@, vtab_entries), ("typed_value_entries"@, typed_value_entries), ("primary"@, primary), ("version"@, version)];
    lemma_holes_bridge_struct_typed_value_use_scalar_entries_agg_entries_vtab_entries_typed_value_entries_primary_version(
        bridge_struct,
        typed_value_use,
        scalar_entries,
        agg_entries,
        vtab_entries,
        typed_value_entries,
        primary,
        version,
    );
    assert(words::has_piece(
        text::fill(t::METADATA_IMPL@, b),
        "let scalar_functions: Vec<ScalarFunctionSpec> = alloc::vec![\n"@ + scalar_entries
            + "        ];"@,
    )) by {
        let before = text::lemma_fill_reaches(s, b, 206);
        reveal_strlit("\n        ");
        assert(s.subrange(206, 215) =~= "\n        "@);
        text::lemma_fill_run(s, b, 206, "\n        "@);
        reveal_strlit("let scalar_functions: Vec<Scal");
        assert(s.subrange(215, 245) =~= "let scalar_functions: Vec<Scal"@);
        text::lemma_fill_run(s, b, 215, "let scalar_functions: Vec<Scal"@);
        reveal_strlit("arFunctionSpec> = alloc::vec![");
        assert(s.subrange(245, 275) =~= "arFunctionSpec> = alloc::vec!["@);
        text::lemma_fill_run(s, b, 245, "arFunctionSpec> = alloc::vec!["@);
        reveal_strlit("\n");
        assert(s.subrange(275, 276) =~= "\n"@);
        text::lemma_fill_run(s, b, 275, "\n"@);
        reveal_strlit("scalar_entries");
        assert(s.subrange(277, 291) =~= "scalar_entries"@);
        text::lemma_fill_hole(s, b, 276, "scalar_entries"@);
        reveal_strlit("        ];");
        assert(s.subrange(292, 302) =~= "        ];"@);
        text::lemma_fill_run(s, b, 292, "        ];"@);
        let rest = text::fill_from(s, b, 302);
        let part = "let scalar_functions: Vec<ScalarFunctionSpec> = alloc::vec![\n"@ + scalar_entries
            + "        ];"@;
        reveal_strlit("let scalar_functions: Vec<ScalarFunctionSpec> = alloc::vec![\n");
        assert((
            "let scalar_functions: Vec<Scal"@
                + (
                    "arFunctionSpec> = alloc::vec!["@
                        + ("\n"@ + (scalar_entries + ("        ];"@ + rest)))
                )
        )
            =~= part + rest);
        assert(before + ("\n        "@ + (part + rest)) =~= (before + "\n        "@) + (part + rest));
        words::lemma_piece_between(before + "\n        "@, part, rest);
    }
    assert(words::has_piece(
        text::fill(t::METADATA_IMPL@, b),
        "let aggregate_functions: Vec<AggregateFunctionSpec> = alloc::vec![\n"@ + agg_entries
            + "        ];"@,
    )) by {
        let before = text::lemma_fill_reaches(s, b, 292);
        reveal_strlit("        ];\n        ");
        assert(s.subrange(292, 311) =~= "        ];\n        "@);
        text::lemma_fill_run(s, b, 292, "        ];\n        "@);
        reveal_strlit("let aggregate_functions: Vec<A");
        assert(s.subrange(311, 341) =~= "let aggregate_functions: Vec<A"@);
        text::lemma_fill_run(s, b, 311, "let aggregate_functions: Vec<A"@);
        reveal_strlit("ggregateFunctionSpec> = alloc:");
        assert(s.subrange(341, 371) =~= "ggregateFunctionSpec> = alloc:"@);
        text::lemma_fill_run(s, b, 341, "ggregateFunctionSpec> = alloc:"@);
        reveal_strlit(":vec![\n");
        assert(s.subrange(371, 378) =~= ":vec![\n"@);
        text::lemma_fill_run(s, b, 371, ":vec![\n"@);
        reveal_strlit("agg_entries");
        assert(s.subrange(379, 390) =~= "agg_entries"@);
        text::lemma_fill_hole(s, b, 378, "agg_entries"@);
        reveal_strlit("        ];");
        assert(s.subrange(391, 401) =~= "        ];"@);
        text::lemma_fill_run(s, b, 391, "        ];"@);
        let rest = text::fill_from(s, b, 401);
        let part = "let aggregate_functions: Vec<AggregateFunctionSpec> = alloc::vec![\n"@ + agg_entries
            + "        ];"@;
        reveal_strlit("let aggregate_functions: Vec<AggregateFunctionSpec> = alloc::vec![\n");
        assert((
            "let aggregate_functions: Vec<A"@
                + (
                    "ggregateFunctionSpec> = alloc:"@
                        + (":vec![\n"@ + (agg_entries + ("        ];"@ + rest)))
                )
        )
            =~= part + rest);
        assert(before + ("        ];\n        "@ + (part + rest))
            =~= (before + "        ];\n        "@) + (part + rest));
        words::lemma_piece_between(before + "        ];\n        "@, part, rest);
    }
    assert(words::has_piece(
        text::fill(t::METADATA_IMPL@, b),
        "let vtabs: Vec<VtabSpec> = alloc::vec![\n"@ + vtab_entries + "        ];"@,
    )) by {
        let before = text::lemma_fill_reaches(s, b, 391);
        reveal_strlit("        ];\n        ");
        assert(s.subrange(391, 410) =~= "        ];\n        "@);
        text::lemma_fill_run(s, b, 391, "        ];\n        "@);
        reveal_strlit("let vtabs: Vec<VtabSpec> = all");
        assert(s.subrange(410, 440) =~= "let vtabs: Vec<VtabSpec> = all"@);
        text::lemma_fill_run(s, b, 410, "let vtabs: Vec<VtabSpec> = all"@);
        reveal_strlit("oc::vec![\n");
        assert(s.subrange(440, 450) =~= "oc::vec![\n"@);
        text::lemma_fill_run(s, b, 440, "oc::vec![\n"@);
        reveal_strlit("vtab_entries");
        assert(s.subrange(451, 463) =~= "vtab_entries"@);
        text::lemma_fill_hole(s, b, 450, "vtab_entries"@);
        reveal_strlit("        ];");
        assert(s.subrange(464, 474) =~= "        ];"@);
        text::lemma_fill_run(s, b, 464, "        ];"@);
        let rest = text::fill_from(s, b, 474);
        let part = "let vtabs: Vec<VtabSpec> = alloc::vec![\n"@ + vtab_entries + "        ];"@;
        reveal_strlit("let vtabs: Vec<VtabSpec> = alloc::vec![\n");
        assert((
            "let vtabs: Vec<VtabSpec> = all"@
                + ("oc::vec![\n"@ + (vtab_entries + ("        ];"@ + rest)))
        )
            =~= part + rest);
        assert(before + ("        ];\n        "@ + (part + rest))
            =~= (before + "        ];\n        "@) + (part + rest));
        words::lemma_piece_between(before + "        ];\n        "@, part, rest);
    }
    assert(words::has_piece(
        text::fill(t::METADATA_IMPL@, b),
        "let typed_values: Vec<TypedValueBinding> = alloc::vec![\n"@ + typed_value_entries
            + "        ];"@,
    )) by {
        let before = text::lemma_fill_reaches(s, b, 464);
        reveal_strlit("        ];\n        ");
        assert(s.subrange(464, 483) =~= "        ];\n        "@);
        text::lemma_fill_run(s, b, 464, "        ];\n        "@);
        reveal_strlit("let typed_values: Vec<TypedVal");
        assert(s.subrange(483, 513) =~= "let typed_values: Vec<TypedVal"@);
        text::lemma_fill_run(s, b, 483, "let typed_values: Vec<TypedVal"@);
        reveal_strlit("ueBinding> = alloc::vec![\n");
        assert(s.subrange(513, 539) =~= "ueBinding> = alloc::vec![\n"@);
        text::lemma_fill_run(s, b, 513, "ueBinding> = alloc::vec![\n"@);
        reveal_strlit("typed_value_entries");
        assert(s.subrange(540, 559) =~= "typed_value_entries"@);
        text::lemma_fill_hole(s, b, 539, "typed_value_entries"@);
        reveal_strlit("        ];");
        assert(s.subrange(560, 570) =~= "        ];"@);
        text::lemma_fill_run(s, b, 560, "        ];"@);
        let rest = text::fill_from(s, b, 570);
        let part = "let typed_values: Vec<TypedValueBinding> = alloc::vec![\n"@ + typed_value_entries
            + "        ];"@;
        reveal_strlit("let typed_values: Vec<TypedValueBinding> = alloc::vec![\n");
        assert((
            "let typed_values: Vec<TypedVal"@
                + ("ueBinding> = alloc::vec![\n"@ + (typed_value_entries + ("        ];"@ + rest)))
        )
            =~= part + rest);
        assert(before + ("        ];\n        "@ + (part + rest))
            =~= (before + "        ];\n        "@) + (part + rest));
        words::lemma_piece_between(before + "        ];\n        "@, part, rest);
    }
    assert(words::has_piece(text::fill(t::METADATA_IMPL@, b), "name: \""@ + primary + "\".into(),"@)) by {
        let before = text::lemma_fill_reaches(s, b, 560);
        let past_560 = text::lemma_fill_passes(s, b, 560, 604);
        reveal_strlit("name: \"");
        assert(s.subrange(604, 611) =~= "name: \""@);
        text::lemma_fill_run(s, b, 604, "name: \""@);
        reveal_strlit("primary");
        assert(s.subrange(612, 619) =~= "primary"@);
        text::lemma_fill_hole(s, b, 611, "primary"@);
        reveal_strlit("\".into(),");
        assert(s.subrange(620, 629) =~= "\".into(),"@);
        text::lemma_fill_run(s, b, 620, "\".into(),"@);
        let rest = text::fill_from(s, b, 629);
        let part = "name: \""@ + primary + "\".into(),"@;
        assert(("name: \""@ + (primary + ("\".into(),"@ + rest))) =~= part + rest);
        assert(before + (past_560 + (part + rest)) =~= (before + past_560) + (part + rest));
        words::lemma_piece_between(before + past_560, part, rest);
    }
    assert(words::has_piece(text::fill(t::METADATA_IMPL@, b), "version: \""@ + version + "\".into(),"@)) by {
        let before = text::lemma_fill_reaches(s, b, 620);
        reveal_strlit("\".into(),\n            ");
        assert(s.subrange(620, 642) =~= "\".into(),\n            "@);
        text::lemma_fill_run(s, b, 620, "\".into(),\n            "@);
        reveal_strlit("version: \"");
        assert(s.subrange(642, 652) =~= "version: \""@);
        text::lemma_fill_run(s, b, 642, "version: \""@);
        reveal_strlit("version");
        assert(s.subrange(653, 660) =~= "version"@);
        text::lemma_fill_hole(s, b, 652, "version"@);
        reveal_strlit("\".into(),");
        assert(s.subrange(661, 670) =~= "\".into(),"@);
        text::lemma_fill_run(s, b, 661, "\".into(),"@);
        let rest = text::fill_from(s, b, 670);
        let part = "version: \""@ + version + "\".into(),"@;
        assert(("version: \""@ + (version + ("\".into(),"@ + rest))) =~= part + rest);
        assert(before + ("\".into(),\n            "@ + (part + rest))
            =~= (before + "\".into(),\n            "@) + (part + rest));
        words::lemma_piece_between(before + "\".into(),\n            "@, part, rest);
    }
}

#[verifier::rlimit(100)]
proof fn lemma_vtab_impl(
    bridge_struct: Seq<char>,
    connect_arms: Seq<char>,
    filter_arms: Seq<char>,
    column_arms: Seq<char>,
)
    ensures
        words::has_piece(
            text::fill(
                t::VTAB_IMPL@,
                seq![("bridge_struct"@, bridge_struct), ("connect_arms"@, connect_arms), ("filter_arms"@, filter_arms), ("column_arms"@, column_arms)],
            ),
            connect_arms + "            _ => Err(stubbed(\"vtab connect\", vtab_id)),"@,
        ),
        words::has_piece(
            text::fill(
                t::VTAB_IMPL@,
                seq![("bridge_struct"@, bridge_struct), ("connect_arms"@, connect_arms), ("filter_arms"@, filter_arms), ("column_arms"@, column_arms)],
            ),
            filter_arms + "            _ => Err(stubbed(\"vtab filter\", vtab_id)),"@,
        ),
        words::has_piece(
            text::fill(
                t::VTAB_IMPL@,
                seq![("bridge_struct"@, bridge_struct), ("connect_arms"@, connect_arms), ("filter_arms"@, filter_arms), ("column_arms"@, column_arms)],
            ),
            column_arms + "            _ => Err(stubbed(\"vtab column\", vtab_id)),"@,
        ),
{
    let s = t::VTAB_IMPL@;
    reveal_strlit(r#"impl VtabGuest for {bridge_struct} {{
    fn create(
        vtab_id: u64,
        instance_id: u64,
        db_name: String,
        table_name: String,
        args: Vec<String>,
    ) -> Result<String, String> {{
        // Eponymous UDTFs see only connect(); fall through.
        Self::connect(vtab_id, instance_id, db_name, table_name, args)
    }}
    fn connect(
        vtab_id: u64,
        _instance_id: u64,
        _db_name: String,
        _table_name: String,
        _args: Vec<String>,
    ) -> Result<String, String> {{
        match vtab_id {{
{connect_arms}            _ => Err(stubbed("vtab connect", vtab_id)),
        }}
    }}
    fn destroy(_vtab_id: u64, _instance_id: u64) -> Result<(), String> {{
        Ok(())
    }}
    fn disconnect(_vtab_id: u64, _instance_id: u64) -> Result<(), String> {{
        Ok(())
    }}
    fn best_index(
        _vtab_id: u64,
        _instance_id: u64,
        info: IndexInfo,
    ) -> Result<IndexPlan, String> {{
        // Task #531: HIDDEN-column constraints back the
        // table-valued-function arg form `f(g1, g2, ...)`. SQLite
        // assembles the SQL-side argv into xFilter's `args` array
        // in the order each usable constraint's `argv_index`
        // names; an `argv_index` of 0 means "ignore this
        // constraint" — leaving the function form unable to pass
        // its arguments through. Assign each usable EQ constraint
        // a unique 1-based slot and mark `omit: true` so SQLite
        // doesn't re-check the constraint after filter sees it.
        let mut next_argv_idx: i32 = 1;
        let constraint_usage = info.constraints.iter()
            .map(|c| {{
                if c.usable {{
                    let idx = next_argv_idx;
                    next_argv_idx += 1;
                    ConstraintUsage {{ argv_index: idx, omit: true }}
                }} else {{
                    ConstraintUsage {{ argv_index: 0, omit: false }}
                }}
            }})
            .collect();
        Ok(IndexPlan {{
            constraint_usage,
            idx_num: 0,
            idx_str: None,
            estimated_cost: 1.0,
            estimated_rows: 1,
            orderby_consumed: false,
        }})
    }}
    fn open(_vtab_id: u64, _instance_id: u64, cursor_id: u64) -> Result<(), String> {{
        UDTF_STATE.with(|m| {{
            m.borrow_mut().insert(cursor_id, UdtfCursor {{ rows: Vec::new(), idx: 0 }});
        }});
        Ok(())
    }}
    fn close(_vtab_id: u64, cursor_id: u64) -> Result<(), String> {{
        UDTF_STATE.with(|m| {{
            m.borrow_mut().remove(&cursor_id);
        }});
        Ok(())
    }}
    fn filter(
        vtab_id: u64,
        cursor_id: u64,
        _idx_num: i32,
        _idx_str: Option<String>,
        args: Vec<SqlValue>,
    ) -> Result<(), String> {{
        match vtab_id {{
{filter_arms}            _ => Err(stubbed("vtab filter", vtab_id)),
        }}
    }}
    fn next(_vtab_id: u64, cursor_id: u64) -> Result<(), String> {{
        UDTF_STATE.with(|m| {{
            if let Some(c) = m.borrow_mut().get_mut(&cursor_id) {{
                c.idx += 1;
            }}
        }});
        Ok(())
    }}
    fn eof(_vtab_id: u64, cursor_id: u64) -> bool {{
        UDTF_STATE.with(|m| {{
            m.borrow().get(&cursor_id)
                .map(|c| c.idx >= c.rows.len())
                .unwrap_or(true)
        }})
    }}
    fn column(vtab_id: u64, cursor_id: u64, _col: i32) -> Result<SqlValue, String> {{
        let row_cols: Vec<SqlValue> = UDTF_STATE.with(|m| {{
            m.borrow().get(&cursor_id)
                .and_then(|c| c.rows.get(c.idx).cloned())
                .ok_or_else(|| stubbed("vtab column out of range", vtab_id))
        }})?;
        match vtab_id {{
{column_arms}            _ => Err(stubbed("vtab column", vtab_id)),
        }}
    }}
    fn rowid(_vtab_id: u64, cursor_id: u64) -> Result<i64, String> {{
        Ok(UDTF_STATE.with(|m| {{
            m.borrow().get(&cursor_id).map(|c| c.idx as i64).unwrap_or(0)
        }}))
    }}
    fn fetch_batch(
        vtab_id: u64,
        _cursor_id: u64,
        _max_rows: u32,
    ) -> Result<Vec<VtabRow>, String> {{
        Err(stubbed("vtab fetch-batch (use per-row path)", vtab_id))
    }}
}}

"#);
    reveal_with_fuel(text::plain_to, 31);
    reveal_with_fuel(text::passes_to, 46);
    let b = seq![("bridge_struct"@, bridge_struct), ("connect_arms"@, connect_arms), ("filter_arms"@, filter_arms), ("column_arms"@, column_arms)];
    lemma_holes_bridge_struct_connect_arms_filter_arms_column_arms(
        bridge_struct,
        connect_arms,
        filter_arms,
        column_arms,
    );
    assert(words::has_piece(
        text::fill(t::VTAB_IMPL@, b),
        connect_arms + "            _ => Err(stubbed(\"vtab connect\", vtab_id)),"@,
    )) by {
        let before = text::lemma_fill_reaches(s, b, 354);
        let past_354 = text::lemma_fill_passes(s, b, 354, 399);
        let past_399 = text::lemma_fill_passes(s, b, 399, 444);
        let past_444 = text::lemma_fill_passes(s, b, 444, 489);
        let past_489 = text::lemma_fill_passes(s, b, 489, 534);
        let past_534 = text::lemma_fill_passes(s, b, 534, 563);
        reveal_strlit("connect_arms");
        assert(s.subrange(564, 576) =~= "connect_arms"@);
        text::lemma_fill_hole(s, b, 563, "connect_arms"@);
        reveal_strlit("            _ => Err(stubbed(\"");
        assert(s.subrange(577, 607) =~= "            _ => Err(stubbed(\""@);
        text::lemma_fill_run(s, b, 577, "            _ => Err(stubbed(\""@);
        reveal_strlit("vtab connect\", vtab_id)),");
        assert(s.subrange(607, 632) =~= "vtab connect\", vtab_id)),"@);
        text::lemma_fill_run(s, b, 607, "vtab connect\", vtab_id)),"@);
        let rest = text::fill_from(s, b, 632);
        let part = connect_arms + "            _ => Err(stubbed(\"vtab connect\", vtab_id)),"@;
        reveal_strlit("            _ => Err(stubbed(\"vtab connect\", vtab_id)),");
        assert((
            connect_arms
                + ("            _ => Err(stubbed(\""@ + ("vtab connect\", vtab_id)),"@ + rest))
        )
            =~= part + rest);
        assert(before + (past_354 + (past_399 + (past_444 + (past_489 + (past_534 + (part + rest))))))
            =~= (before + past_354 + past_399 + past_444 + past_489 + past_534) + (part + rest));
        words::lemma_piece_between(
            before + past_354 + past_399 + past_444 + past_489 + past_534,
            part,
            rest,
        );
    }
    assert(words::has_piece(
        text::fill(t::VTAB_IMPL@, b),
        filter_arms + "            _ => Err(stubbed(\"vtab filter\", vtab_id)),"@,
    )) by {
        let before = text::lemma_fill_reaches(s, b, 2660);
        let past_2660 = text::lemma_fill_passes(s, b, 2660, 2705);
        let past_2705 = text::lemma_fill_passes(s, b, 2705, 2750);
        let past_2750 = text::lemma_fill_passes(s, b, 2750, 2795);
        let past_2795 = text::lemma_fill_passes(s, b, 2795, 2840);
        let past_2840 = text::lemma_fill_passes(s, b, 2840, 2864);
        reveal_strlit("filter_arms");
        assert(s.subrange(2865, 2876) =~= "filter_arms"@);
        text::lemma_fill_hole(s, b, 2864, "filter_arms"@);
        reveal_strlit("            _ => Err(stubbed(\"");
        assert(s.subrange(2877, 2907) =~= "            _ => Err(stubbed(\""@);
        text::lemma_fill_run(s, b, 2877, "            _ => Err(stubbed(\""@);
        reveal_strlit("vtab filter\", vtab_id)),");
        assert(s.subrange(2907, 2931) =~= "vtab filter\", vtab_id)),"@);
        text::lemma_fill_run(s, b, 2907, "vtab filter\", vtab_id)),"@);
        let rest = text::fill_from(s, b, 2931);
        let part = filter_arms + "            _ => Err(stubbed(\"vtab filter\", vtab_id)),"@;
        reveal_strlit("            _ => Err(stubbed(\"vtab filter\", vtab_id)),");
        assert((
            filter_arms
                + ("            _ => Err(stubbed(\""@ + ("vtab filter\", vtab_id)),"@ + rest))
        )
            =~= part + rest);
        assert(before
            + (past_2660 + (past_2705 + (past_2750 + (past_2795 + (past_2840 + (part + rest))))))
            =~= (before + past_2660 + past_2705 + past_2750 + past_2795 + past_2840) + (part + rest));
        words::lemma_piece_between(
            before + past_2660 + past_2705 + past_2750 + past_2795 + past_2840,
            part,
            rest,
        );
    }
    assert(words::has_piece(
        text::fill(t::VTAB_IMPL@, b),
        column_arms + "            _ => Err(stubbed(\"vtab column\", vtab_id)),"@,
    )) by {
        let before = text::lemma_fill_reaches(s, b, 3748);
        reveal_strlit(")?;\n        match vtab_id ");
        assert(s.subrange(3748, 3774) =~= ")?;\n        match vtab_id "@);
        text::lemma_fill_run(s, b, 3748, ")?;\n        match vtab_id "@);
        assert(text::fill_from(s, b, 3774) == seq!['{'] + text::fill_from(s, b, 3776));
        reveal_strlit("\n");
        assert(s.subrange(3776, 3777) =~= "\n"@);
        text::lemma_fill_run(s, b, 3776, "\n"@);
        reveal_strlit("column_arms");
        assert(s.subrange(3778, 3789) =~= "column_arms"@);
        text::lemma_fill_hole(s, b, 3777, "column_arms"@);
        reveal_strlit("            _ => Err(stubbed(\"");
        assert(s.subrange(3790, 3820) =~= "            _ => Err(stubbed(\""@);
        text::lemma_fill_run(s, b, 3790, "            _ => Err(stubbed(\""@);
        reveal_strlit("vtab column\", vtab_id)),");
        assert(s.subrange(3820, 3844) =~= "vtab column\", vtab_id)),"@);
        text::lemma_fill_run(s, b, 3820, "vtab column\", vtab_id)),"@);
        let rest = text::fill_from(s, b, 3844);
        let part = column_arms + "            _ => Err(stubbed(\"vtab column\", vtab_id)),"@;
        reveal_strlit("            _ => Err(stubbed(\"vtab column\", vtab_id)),");
        assert((
            column_arms
                + ("            _ => Err(stubbed(\""@ + ("vtab column\", vtab_id)),"@ + rest))
        )
            =~= part + rest);
        assert(before + (")?;\n        match vtab_id "@ + (seq!['{'] + ("\n"@ + (part + rest))))
            =~= (before + ")?;\n        match vtab_id "@ + seq!['{'] + "\n"@) + (part + rest));
        words::lemma_piece_between(
            before + ")?;\n        match vtab_id "@ + seq!['{'] + "\n"@,
            part,
            rest,
        );
    }
}

proof fn lemma_arm(id: Seq<char>, body: Seq<char>)
    ensures
        text::fill(t::ARM@, seq![("id"@, id), ("body"@, body)])
            == "            "@ + id + " => {\n"@ + body + "\n            }\n"@,
{
    let s = t::ARM@;
    let b = seq![("id"@, id), ("body"@, body)];
    reveal_strlit(r#"            {id} => {{
{body}
            }}
"#);
    reveal_with_fuel(text::plain_to, 31);
    lemma_holes_id_body(id, body);
    reveal_strlit("            ");
    assert(s.subrange(0, 12) =~= "            "@);
    text::lemma_fill_run(s, b, 0, "            "@);
    reveal_strlit("id");
    assert(s.subrange(13, 15) =~= "id"@);
    text::lemma_fill_hole(s, b, 12, "id"@);
    reveal_strlit(" => ");
    assert(s.subrange(16, 20) =~= " => "@);
    text::lemma_fill_run(s, b, 16, " => "@);
    assert(text::fill_from(s, b, 20) == seq!['{'] + text::fill_from(s, b, 22));
    reveal_strlit("\n");
    assert(s.subrange(22, 23) =~= "\n"@);
    text::lemma_fill_run(s, b, 22, "\n"@);
    reveal_strlit("body");
    assert(s.subrange(24, 28) =~= "body"@);
    text::lemma_fill_hole(s, b, 23, "body"@);
    reveal_strlit("\n            ");
    assert(s.subrange(29, 42) =~= "\n            "@);
    text::lemma_fill_run(s, b, 29, "\n            "@);
    assert(text::fill_from(s, b, 42) == seq!['}'] + text::fill_from(s, b, 44));
    assert(s.subrange(44, 45) =~= "\n"@);
    text::lemma_fill_run(s, b, 44, "\n"@);
    reveal_strlit(" => {\n");
    reveal_strlit("\n            }\n");
    assert((
        "            "@
            + (
                id
                    + (
                        " => "@
                            + (
                                seq!['{']
                                    + (
                                        "\n"@
                                            + (
                                                body
                                                    + (
                                                        "\n            "@
                                                            + (
                                                                seq!['}']
                                                                    + (
                                                                        "\n"@
                                                                            + text::fill_from(
                                                                                s,
                                                                                b,
                                                                                45,
                                                                            )
                                                                    )
                                                            )
                                                    )
                                            )
                                    )
                            )
                    )
            )
    )
        =~= "            "@ + id + " => {\n"@ + body + "\n            }\n"@);
}

proof fn lemma_connect_arm(id: Seq<char>, schema_lit: Seq<char>)
    ensures
        text::fill(t::CONNECT_ARM@, seq![("id"@, id), ("schema_lit"@, schema_lit)])
            == "            "@ + id + " => Ok("@ + schema_lit + ".to_string()),\n"@,
{
    let s = t::CONNECT_ARM@;
    let b = seq![("id"@, id), ("schema_lit"@, schema_lit)];
    reveal_strlit("            {id} => Ok({schema_lit}.to_string()),\n");
    reveal_with_fuel(text::plain_to, 31);
    lemma_holes_id_schema_lit(id, schema_lit);
    reveal_strlit("            ");
    assert(s.subrange(0, 12) =~= "            "@);
    text::lemma_fill_run(s, b, 0, "            "@);
    reveal_strlit("id");
    assert(s.subrange(13, 15) =~= "id"@);
    text::lemma_fill_hole(s, b, 12, "id"@);
    reveal_strlit(" => Ok(");
    assert(s.subrange(16, 23) =~= " => Ok("@);
    text::lemma_fill_run(s, b, 16, " => Ok("@);
    reveal_strlit("schema_lit");
    assert(s.subrange(24, 34) =~= "schema_lit"@);
    text::lemma_fill_hole(s, b, 23, "schema_lit"@);
    reveal_strlit(".to_string()),\n");
    assert(s.subrange(35, 50) =~= ".to_string()),\n"@);
    text::lemma_fill_run(s, b, 35, ".to_string()),\n"@);
    assert((
        "            "@
            + (id + (" => Ok("@ + (schema_lit + (".to_string()),\n"@ + text::fill_from(s, b, 50)))))
    )
        =~= "            "@ + id + " => Ok("@ + schema_lit + ".to_string()),\n"@);
}

#[verifier::rlimit(60)]
proof fn lemma_window_step_arm(id: Seq<char>, compute_fn: Seq<char>)
    ensures
        words::has_piece(
            text::fill(t::WINDOW_STEP_ARM@, seq![("id"@, id), ("compute_fn"@, compute_fn)]),
            id + " => "@,
        ),
        words::has_piece(
            text::fill(t::WINDOW_STEP_ARM@, seq![("id"@, id), ("compute_fn"@, compute_fn)]),
            "push_window_row(context_id, args);"@,
        ),
{
    let s = t::WINDOW_STEP_ARM@;
    reveal_strlit(r#"            {id} => {{
                push_window_row(context_id, args);
                Ok(())
            }}
"#);
    reveal_with_fuel(text::plain_to, 31);
    let b = seq![("id"@, id), ("compute_fn"@, compute_fn)];
    lemma_holes_id_compute_fn(id, compute_fn);
    assert(words::has_piece(text::fill(t::WINDOW_STEP_ARM@, b), id + " => "@)) by {
        let before = text::lemma_fill_reaches(s, b, 0);
        reveal_strlit("            ");
        assert(s.subrange(0, 12) =~= "            "@);
        text::lemma_fill_run(s, b, 0, "            "@);
        reveal_strlit("id");
        assert(s.subrange(13, 15) =~= "id"@);
        text::lemma_fill_hole(s, b, 12, "id"@);
        reveal_strlit(" => ");
        assert(s.subrange(16, 20) =~= " => "@);
        text::lemma_fill_run(s, b, 16, " => "@);
        let rest = text::fill_from(s, b, 20);
        let part = id + " => "@;
        assert((id + (" => "@ + rest)) =~= part + rest);
        assert(before + ("            "@ + (part + rest)) =~= (before + "            "@) + (part + rest));
        words::lemma_piece_between(before + "            "@, part, rest);
    }
    assert(words::has_piece(text::fill(t::WINDOW_STEP_ARM@, b), "push_window_row(context_id, args);"@)) by {
        let before = text::lemma_fill_reaches(s, b, 16);
        reveal_strlit(" => ");
        assert(s.subrange(16, 20) =~= " => "@);
        text::lemma_fill_run(s, b, 16, " => "@);
        assert(text::fill_from(s, b, 20) == seq!['{'] + text::fill_from(s, b, 22));
        reveal_strlit("\n                ");
        assert(s.subrange(22, 39) =~= "\n                "@);
        text::lemma_fill_run(s, b, 22, "\n                "@);
        reveal_strlit("push_window_row(context_id, ar");
        assert(s.subrange(39, 69) =~= "push_window_row(context_id, ar"@);
        text::lemma_fill_run(s, b, 39, "push_window_row(context_id, ar"@);
        reveal_strlit("gs);");
        assert(s.subrange(69, 73) =~= "gs);"@);
        text::lemma_fill_run(s, b, 69, "gs);"@);
        let rest = text::fill_from(s, b, 73);
        let part = "push_window_row(context_id, args);"@;
        reveal_strlit("push_window_row(context_id, args);");
        assert(("push_window_row(context_id, ar"@ + ("gs);"@ + rest)) =~= part + rest);
        assert(before + (" => "@ + (seq!['{'] + ("\n                "@ + (part + rest))))
            =~= (before + " => "@ + seq!['{'] + "\n                "@) + (part + rest));
        words::lemma_piece_between(
            before + " => "@ + seq!['{'] + "\n                "@,
            part,
            rest,
        );
    }
}

#[verifier::rlimit(60)]
proof fn lemma_window_value_arm(id: Seq<char>, compute_fn: Seq<char>)
    ensures
        words::has_piece(
            text::fill(t::WINDOW_VALUE_ARM@, seq![("id"@, id), ("compute_fn"@, compute_fn)]),
            id + " => "@,
        ),
        words::has_piece(
            text::fill(t::WINDOW_VALUE_ARM@, seq![("id"@, id), ("compute_fn"@, compute_fn)]),
            "let results = "@ + compute_fn + "(&rows)?;"@,
        ),
        words::has_piece(
            text::fill(t::WINDOW_VALUE_ARM@, seq![("id"@, id), ("compute_fn"@, compute_fn)]),
            "set_window_results(context_id, results);"@,
        ),
{
    let s = t::WINDOW_VALUE_ARM@;
    reveal_strlit(r#"            {id} => {{
                // First value() call materialises the cached results;
                // subsequent calls read from cache and bump cursor.
                if window_results_cached(context_id).is_none() {{
                    let rows = drain_window_rows(context_id);
                    let results = {compute_fn}(&rows)?;
                    set_window_results(context_id, results);
                }}
                let i = bump_window_cursor(context_id);
                let cached = window_results_cached(context_id).unwrap_or_default();
                Ok(cached.get(i).cloned().unwrap_or(SqlValue::Null))
            }}
"#);
    reveal_with_fuel(text::plain_to, 31);
    reveal_with_fuel(text::passes_to, 46);
    let b = seq![("id"@, id), ("compute_fn"@, compute_fn)];
    lemma_holes_id_compute_fn(id, compute_fn);
    assert(words::has_piece(text::fill(t::WINDOW_VALUE_ARM@, b), id + " => "@)) by {
        let before = text::lemma_fill_reaches(s, b, 0);
        reveal_strlit("            ");
        assert(s.subrange(0, 12) =~= "            "@);
        text::lemma_fill_run(s, b, 0, "            "@);
        reveal_strlit("id");
        assert(s.subrange(13, 15) =~= "id"@);
        text::lemma_fill_hole(s, b, 12, "id"@);
        reveal_strlit(" => ");
        assert(s.subrange(16, 20) =~= " => "@);
        text::lemma_fill_run(s, b, 16, " => "@);
        let rest = text::fill_from(s, b, 20);
        let part = id + " => "@;
        assert((id + (" => "@ + rest)) =~= part + rest);
        assert(before + ("            "@ + (part + rest)) =~= (before + "            "@) + (part + rest));
        words::lemma_piece_between(before + "            "@, part, rest);
    }
    assert(words::has_piece(
        text::fill(t::WINDOW_VALUE_ARM@, b),
        "let results = "@ + compute_fn + "(&rows)?;"@,
    )) by {
        let before = text::lemma_fill_reaches(s, b, 16);
        let past_16 = text::lemma_fill_passes(s, b, 16, 61);
        let past_61 = text::lemma_fill_passes(s, b, 61, 106);
        let past_106 = text::lemma_fill_passes(s, b, 106, 151);
        let past_151 = text::lemma_fill_passes(s, b, 151, 196);
        let past_196 = text::lemma_fill_passes(s, b, 196, 241);
        let past_241 = text::lemma_fill_passes(s, b, 241, 286);
        let past_286 = text::lemma_fill_passes(s, b, 286, 311);
        reveal_strlit("let results = ");
        assert(s.subrange(311, 325) =~= "let results = "@);
        text::lemma_fill_run(s, b, 311, "let results = "@);
        reveal_strlit("compute_fn");
        assert(s.subrange(326, 336) =~= "compute_fn"@);
        text::lemma_fill_hole(s, b, 325, "compute_fn"@);
        reveal_strlit("(&rows)?;");
        assert(s.subrange(337, 346) =~= "(&rows)?;"@);
        text::lemma_fill_run(s, b, 337, "(&rows)?;"@);
        let rest = text::fill_from(s, b, 346);
        let part = "let results = "@ + compute_fn + "(&rows)?;"@;
        assert(("let results = "@ + (compute_fn + ("(&rows)?;"@ + rest))) =~= part + rest);
        assert(before
            + (
                past_16
                    + (
                        past_61
                            + (
                                past_106
                                    + (
                                        past_151
                                            + (past_196 + (past_241 + (past_286 + (part + rest))))
                                    )
                            )
                    )
            )
            =~= (before + past_16 + past_61 + past_106 + past_151 + past_196 + past_241 + past_286)
                + (part + rest));
        words::lemma_piece_between(
            before + past_16 + past_61 + past_106 + past_151 + past_196 + past_241 + past_286,
            part,
            rest,
        );
    }
    assert(words::has_piece(
        text::fill(t::WINDOW_VALUE_ARM@, b),
        "set_window_results(context_id, results);"@,
    )) by {
        let before = text::lemma_fill_reaches(s, b, 337);
        reveal_strlit("(&rows)?;\n                    ");
        assert(s.subrange(337, 367) =~= "(&rows)?;\n                    "@);
        text::lemma_fill_run(s, b, 337, "(&rows)?;\n                    "@);
        reveal_strlit("set_window_results(context_id,");
        assert(s.subrange(367, 397) =~= "set_window_results(context_id,"@);
        text::lemma_fill_run(s, b, 367, "set_window_results(context_id,"@);
        reveal_strlit(" results);");
        assert(s.subrange(397, 407) =~= " results);"@);
        text::lemma_fill_run(s, b, 397, " results);"@);
        let rest = text::fill_from(s, b, 407);
        let part = "set_window_results(context_id, results);"@;
        reveal_strlit("set_window_results(context_id, results);");
        assert(("set_window_results(context_id,"@ + (" results);"@ + rest)) =~= part + rest);
        assert(before + ("(&rows)?;\n                    "@ + (part + rest))
            =~= (before + "(&rows)?;\n                    "@) + (part + rest));
        words::lemma_piece_between(before + "(&rows)?;\n                    "@, part, rest);
    }
}

#[verifier::rlimit(60)]
proof fn lemma_window_finalize_arm(id: Seq<char>, compute_fn: Seq<char>)
    ensures
        words::has_piece(
            text::fill(t::WINDOW_FINALIZE_ARM@, seq![("id"@, id), ("compute_fn"@, compute_fn)]),
            id + " => "@,
        ),
        words::has_piece(
            text::fill(t::WINDOW_FINALIZE_ARM@, seq![("id"@, id), ("compute_fn"@, compute_fn)]),
            "drop_window_state(context_id);"@,
        ),
{
    let s = t::WINDOW_FINALIZE_ARM@;
    reveal_strlit(r#"            {id} => {{
                drop_window_state(context_id);
                Ok(SqlValue::Null)
            }}
"#);
    reveal_with_fuel(text::plain_to, 31);
    let b = seq![("id"@, id), ("compute_fn"@, compute_fn)];
    lemma_holes_id_compute_fn(id, compute_fn);
    assert(words::has_piece(text::fill(t::WINDOW_FINALIZE_ARM@, b), id + " => "@)) by {
        let before = text::lemma_fill_reaches(s, b, 0);
        reveal_strlit("            ");
        assert(s.subrange(0, 12) =~= "            "@);
        text::lemma_fill_run(s, b, 0, "            "@);
        reveal_strlit("id");
        assert(s.subrange(13, 15) =~= "id"@);
        text::lemma_fill_hole(s, b, 12, "id"@);
        reveal_strlit(" => ");
        assert(s.subrange(16, 20) =~= " => "@);
        text::lemma_fill_run(s, b, 16, " => "@);
        let rest = text::fill_from(s, b, 20);
        let part = id + " => "@;
        assert((id + (" => "@ + rest)) =~= part + rest);
        assert(before + ("            "@ + (part + rest)) =~= (before + "            "@) + (part + rest));
        words::lemma_piece_between(before + "            "@, part, rest);
    }
    assert(words::has_piece(text::fill(t::WINDOW_FINALIZE_ARM@, b), "drop_window_state(context_id);"@)) by {
        let before = text::lemma_fill_reaches(s, b, 16);
        reveal_strlit(" => ");
        assert(s.subrange(16, 20) =~= " => "@);
        text::lemma_fill_run(s, b, 16, " => "@);
        assert(text::fill_from(s, b, 20) == seq!['{'] + text::fill_from(s, b, 22));
        reveal_strlit("\n                ");
        assert(s.subrange(22, 39) =~= "\n                "@);
        text::lemma_fill_run(s, b, 22, "\n                "@);
        reveal_strlit("drop_window_state(context_id);");
        assert(s.subrange(39, 69) =~= "drop_window_state(context_id);"@);
        text::lemma_fill_run(s, b, 39, "drop_window_state(context_id);"@);
        let rest = text::fill_from(s, b, 69);
        let part = "drop_window_state(context_id);"@;
        assert(before + (" => "@ + (seq!['{'] + ("\n                "@ + (part + rest))))
            =~= (before + " => "@ + seq!['{'] + "\n                "@) + (part + rest));
        words::lemma_piece_between(
            before + " => "@ + seq!['{'] + "\n                "@,
            part,
            rest,
        );
    }
}

proof fn lemma_column_arm(id: Seq<char>, visible_count: Seq<char>)
    ensures
        words::has_piece(
            text::fill(t::COLUMN_ARM@, seq![("id"@, id), ("visible_count"@, visible_count)]),
            id + " => "@,
        ),
        words::has_piece(
            text::fill(t::COLUMN_ARM@, seq![("id"@, id), ("visible_count"@, visible_count)]),
            "if (_col as usize) < "@ + visible_count + " "@,
        ),
        words::has_piece(
            text::fill(t::COLUMN_ARM@, seq![("id"@, id), ("visible_count"@, visible_count)]),
            "Ok(row_cols.get(_col as usize).cloned().unwrap_or(SqlValue::Null))"@,
        ),
{
    let s = t::COLUMN_ARM@;
    reveal_strlit(r#"            {id} => {{
                if (_col as usize) < {visible_count} {{
                    Ok(row_cols.get(_col as usize).cloned().unwrap_or(SqlValue::Null))
                }} else {{ Ok(SqlValue::Null) }}
            }}
"#);
    reveal_with_fuel(text::plain_to, 31);
    let b = seq![("id"@, id), ("visible_count"@, visible_count)];
    lemma_holes_id_visible_count(id, visible_count);
    assert(words::has_piece(text::fill(t::COLUMN_ARM@, b), id + " => "@)) by {
        let before = text::lemma_fill_reaches(s, b, 0);
        reveal_strlit("            ");
        assert(s.subrange(0, 12) =~= "            "@);
        text::lemma_fill_run(s, b, 0, "            "@);
        reveal_strlit("id");
        assert(s.subrange(13, 15) =~= "id"@);
        text::lemma_fill_hole(s, b, 12, "id"@);
        reveal_strlit(" => ");
        assert(s.subrange(16, 20) =~= " => "@);
        text::lemma_fill_run(s, b, 16, " => "@);
        let rest = text::fill_from(s, b, 20);
        let part = id + " => "@;
        assert((id + (" => "@ + rest)) =~= part + rest);
        assert(before + ("            "@ + (part + rest)) =~= (before + "            "@) + (part + rest));
        words::lemma_piece_between(before + "            "@, part, rest);
    }
    assert(words::has_piece(
        text::fill(t::COLUMN_ARM@, b),
        "if (_col as usize) < "@ + visible_count + " "@,
    )) by {
        let before = text::lemma_fill_reaches(s, b, 16);
        reveal_strlit(" => ");
        assert(s.subrange(16, 20) =~= " => "@);
        text::lemma_fill_run(s, b, 16, " => "@);
        assert(text::fill_from(s, b, 20) == seq!['{'] + text::fill_from(s, b, 22));
        reveal_strlit("\n                ");
        assert(s.subrange(22, 39) =~= "\n                "@);
        text::lemma_fill_run(s, b, 22, "\n                "@);
        reveal_strlit("if (_col as usize) < ");
        assert(s.subrange(39, 60) =~= "if (_col as usize) < "@);
        text::lemma_fill_run(s, b, 39, "if (_col as usize) < "@);
        reveal_strlit("visible_count");
        assert(s.subrange(61, 74) =~= "visible_count"@);
        text::lemma_fill_hole(s, b, 60, "visible_count"@);
        reveal_strlit(" ");
        assert(s.subrange(75, 76) =~= " "@);
        text::lemma_fill_run(s, b, 75, " "@);
        let rest = text::fill_from(s, b, 76);
        let part = "if (_col as usize) < "@ + visible_count + " "@;
        assert(("if (_col as usize) < "@ + (visible_count + (" "@ + rest))) =~= part + rest);
        assert(before + (" => "@ + (seq!['{'] + ("\n                "@ + (part + rest))))
            =~= (before + " => "@ + seq!['{'] + "\n                "@) + (part + rest));
        words::lemma_piece_between(
            before + " => "@ + seq!['{'] + "\n                "@,
            part,
            rest,
        );
    }
    assert(words::has_piece(
        text::fill(t::COLUMN_ARM@, b),
        "Ok(row_cols.get(_col as usize).cloned().unwrap_or(SqlValue::Null))"@,
    )) by {
        let before = text::lemma_fill_reaches(s, b, 75);
        reveal_strlit(" ");
        assert(s.subrange(75, 76) =~= " "@);
        text::lemma_fill_run(s, b, 75, " "@);
        assert(text::fill_from(s, b, 76) == seq!['{'] + text::fill_from(s, b, 78));
        reveal_strlit("\n                    ");
        assert(s.subrange(78, 99) =~= "\n                    "@);
        text::lemma_fill_run(s, b, 78, "\n                    "@);
        reveal_strlit("Ok(row_cols.get(_col as usize)");
        assert(s.subrange(99, 129) =~= "Ok(row_cols.get(_col as usize)"@);
        text::lemma_fill_run(s, b, 99, "Ok(row_cols.get(_col as usize)"@);
        reveal_strlit(".cloned().unwrap_or(SqlValue::");
        assert(s.subrange(129, 159) =~= ".cloned().unwrap_or(SqlValue::"@);
        text::lemma_fill_run(s, b, 129, ".cloned().unwrap_or(SqlValue::"@);
        reveal_strlit("Null))");
        assert(s.subrange(159, 165) =~= "Null))"@);
        text::lemma_fill_run(s, b, 159, "Null))"@);
        let rest = text::fill_from(s, b, 165);
        let part = "Ok(row_cols.get(_col as usize).cloned().unwrap_or(SqlValue::Null))"@;
        reveal_strlit("Ok(row_cols.get(_col as usize).cloned().unwrap_or(SqlValue::Null))");
        assert((
            "Ok(row_cols.get(_col as usize)"@
                + (".cloned().unwrap_or(SqlValue::"@ + ("Null))"@ + rest))
        )
            =~= part + rest);
        assert(before + (" "@ + (seq!['{'] + ("\n                    "@ + (part + rest))))
            =~= (before + " "@ + seq!['{'] + "\n                    "@) + (part + rest));
        words::lemma_piece_between(
            before + " "@ + seq!['{'] + "\n                    "@,
            part,
            rest,
        );
    }
}

} // verus!
