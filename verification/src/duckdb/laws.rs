//! What holds between the parts of a bridge: a function is registered under the number of the
//! dispatch arm that runs it, in a table that is defined, and with the types of the values that
//! its arm reads and makes.

use vstd::prelude::*;

use crate::calls;
use crate::duckdb::dispatch;
use crate::duckdb::dispatch_templates as templates;
use crate::duckdb::emit_lib;
use crate::duckdb::handle_table::{self, Family};
use crate::duckdb::lib_templates as lib;
use crate::duckdb::register;
use crate::duckdb::register_templates as t;
use crate::duckdb::result_texts;
use crate::duckdb::values::{self, ValueKind};
use crate::ir::{
    self, AggregateEntry, AggregateShape, BridgePlan, CastRewrite, DispatchEntry, ParamShape,
    RetShape, UdtfEntry, UdtfOutputRow, WindowEntry, WindowReturn,
};
use crate::text;
use crate::words;

verus! {

/// The arm of the scalar at `k`.
pub open spec fn scalar_arm(entries: Seq<(DispatchEntry, bool)>, k: int) -> Seq<char> {
    emit_lib::arm(words::count_fresh(ir::scalar_names(entries), k as nat), dispatch::scalar_arm_body(
            entries[k].0.shape,
            entries[k].1,
            entries[k].0.sql_name@,
            emit_lib::ARM_INDENT@,
        ))
}

/// The registration of the scalar at `k`.
pub open spec fn scalar_registration(plan: BridgePlan, entries: Seq<(DispatchEntry, bool)>, k: int) -> Seq<char> {
    register::registration(
        Family::Scalar,
        t::SCALAR_REGISTRATION@,
        words::count_fresh(ir::scalar_names(entries), k as nat),
        entries[k].0.sql_name@,
        register::func_args(entries[k].0.shape.params@, 0, entries[k].0.shape.params@.len()),
        entries[k].0.shape.ret,
        register::deterministic(plan, entries[k].0.sql_name@),
    )
}

proof fn lemma_scalar_arm(entries: Seq<(DispatchEntry, bool)>, k: int, n: nat)
    requires
        0 <= k < n <= entries.len(),
        words::fresh(ir::scalar_names(entries), k),
    ensures
        words::has_piece(emit_lib::scalar_arms(entries, n), scalar_arm(entries, k)),
    decreases n,
{
    let before = emit_lib::scalar_arms(entries, (n - 1) as nat);
    if k == n - 1 {
        words::lemma_piece_added(before, scalar_arm(entries, k));
    } else {
        lemma_scalar_arm(entries, k, (n - 1) as nat);
        words::lemma_piece_kept(before, scalar_arm(entries, n - 1), scalar_arm(entries, k));
    }
}

proof fn lemma_scalar_registration(plan: BridgePlan, entries: Seq<(DispatchEntry, bool)>, k: int, n: nat)
    requires
        0 <= k < n <= entries.len(),
        words::fresh(ir::scalar_names(entries), k),
    ensures
        words::has_piece(
            register::scalar_registrations(plan, entries, n),
            scalar_registration(plan, entries, k),
        ),
    decreases n,
{
    let before = register::scalar_registrations(plan, entries, (n - 1) as nat);
    let piece = scalar_registration(plan, entries, k);
    if k == n - 1 {
        words::lemma_piece_added(before, piece);
    } else {
        lemma_scalar_registration(plan, entries, k, (n - 1) as nat);
        words::lemma_piece_kept(before, scalar_registration(plan, entries, n - 1), piece);
    }
}

/// Each scalar name has an arm, and is registered under the number of that arm.
pub proof fn law_scalar_registered_under_arm(plan: BridgePlan, entries: Seq<(DispatchEntry, bool)>, k: int)
    requires
        0 <= k < entries.len(),
        words::fresh(ir::scalar_names(entries), k),
    ensures
        words::has_piece(
            emit_lib::scalar_arms(entries, entries.len()),
            scalar_arm(entries, k),
        ),
        words::has_piece(
            register::scalar_registrations(plan, entries, entries.len()),
            scalar_registration(plan, entries, k),
        ),
{
    lemma_scalar_arm(entries, k, entries.len());
    lemma_scalar_registration(plan, entries, k, entries.len());
}

/// The arm of the aggregate name at `k`.
pub open spec fn aggregate_arm(entries: Seq<AggregateEntry>, k: int) -> Seq<char> {
    emit_lib::arm(words::count_fresh(ir::firsts(ir::aggregate_names(entries)), k as nat), dispatch::aggregate_arm_body(
            entries[ir::aggregate_names(entries)[k].1].shape,
            ir::aggregate_names(entries)[k].0,
            emit_lib::ARM_INDENT@,
        ))
}

/// The registration of the aggregate name at `k`.
pub open spec fn aggregate_registration(entries: Seq<AggregateEntry>, k: int) -> Seq<char> {
    register::registration(
        Family::Aggregate,
        t::AGGREGATE_REGISTRATION@,
        words::count_fresh(ir::firsts(ir::aggregate_names(entries)), k as nat),
        ir::aggregate_names(entries)[k].0,
        register::streamed_args(entries[ir::aggregate_names(entries)[k].1].shape.extra_args@),
        entries[ir::aggregate_names(entries)[k].1].shape.ret,
        true,
    )
}

proof fn lemma_aggregate_arm(entries: Seq<AggregateEntry>, k: int, n: nat)
    requires
        0 <= k < n <= ir::aggregate_names(entries).len(),
        words::fresh(ir::firsts(ir::aggregate_names(entries)), k),
    ensures
        words::has_piece(emit_lib::aggregate_arms(entries, n), aggregate_arm(entries, k)),
    decreases n,
{
    let before = emit_lib::aggregate_arms(entries, (n - 1) as nat);
    if k == n - 1 {
        words::lemma_piece_added(before, aggregate_arm(entries, k));
    } else {
        lemma_aggregate_arm(entries, k, (n - 1) as nat);
        words::lemma_piece_kept(before, aggregate_arm(entries, n - 1), aggregate_arm(entries, k));
    }
}

proof fn lemma_aggregate_registration(entries: Seq<AggregateEntry>, k: int, n: nat)
    requires
        0 <= k < n <= ir::aggregate_names(entries).len(),
        words::fresh(ir::firsts(ir::aggregate_names(entries)), k),
        register::aggregate_offered(entries[ir::aggregate_names(entries)[k].1].shape),
    ensures
        words::has_piece(
            register::aggregate_registrations(entries, n),
            aggregate_registration(entries, k),
        ),
    decreases n,
{
    let before = register::aggregate_registrations(entries, (n - 1) as nat);
    let piece = aggregate_registration(entries, k);
    if k == n - 1 {
        words::lemma_piece_added(before, piece);
    } else {
        lemma_aggregate_registration(entries, k, (n - 1) as nat);
        words::lemma_piece_kept(before, aggregate_registration(entries, n - 1), piece);
    }
}

/// Each aggregate name that is offered has an arm, and is registered under the number of that
/// arm. Names that are not offered have arms and numbers too.
pub proof fn law_aggregate_registered_under_arm(entries: Seq<AggregateEntry>, k: int)
    requires
        0 <= k < ir::aggregate_names(entries).len(),
        words::fresh(ir::firsts(ir::aggregate_names(entries)), k),
        register::aggregate_offered(entries[ir::aggregate_names(entries)[k].1].shape),
    ensures
        words::has_piece(
            emit_lib::aggregate_arms(entries, ir::aggregate_names(entries).len()),
            aggregate_arm(entries, k),
        ),
        words::has_piece(
            register::aggregate_registrations(entries, ir::aggregate_names(entries).len()),
            aggregate_registration(entries, k),
        ),
{
    lemma_aggregate_arm(entries, k, ir::aggregate_names(entries).len());
    lemma_aggregate_registration(entries, k, ir::aggregate_names(entries).len());
}

/// The arm of the window function at `k`.
pub open spec fn window_arm(entries: Seq<WindowEntry>, k: int) -> Seq<char> {
    emit_lib::arm(
        words::count_fresh(ir::window_names(entries), k as nat),
        dispatch::window_arm_body(
            entries[k].shape,
            entries[k].sql_name@,
            emit_lib::ARM_INDENT@,
        ),
    )
}

/// The registration of the window function at `k`.
pub open spec fn window_registration(entries: Seq<WindowEntry>, k: int) -> Seq<char> {
    register::window_registration(
        entries[k],
        words::count_fresh(ir::window_names(entries), k as nat),
    )
}

proof fn lemma_window_arm(entries: Seq<WindowEntry>, k: int, n: nat)
    requires
        0 <= k < n <= entries.len(),
        words::fresh(ir::window_names(entries), k),
    ensures
        words::has_piece(emit_lib::window_arms(entries, n), window_arm(entries, k)),
    decreases n,
{
    let before = emit_lib::window_arms(entries, (n - 1) as nat);
    if k == n - 1 {
        words::lemma_piece_added(before, window_arm(entries, k));
    } else {
        lemma_window_arm(entries, k, (n - 1) as nat);
        words::lemma_piece_kept(before, window_arm(entries, n - 1), window_arm(entries, k));
    }
}

proof fn lemma_window_registration(entries: Seq<WindowEntry>, k: int, n: nat)
    requires
        0 <= k < n <= entries.len(),
        words::fresh(ir::window_names(entries), k),
    ensures
        words::has_piece(
            register::window_registrations(entries, n),
            window_registration(entries, k),
        ),
    decreases n,
{
    let before = register::window_registrations(entries, (n - 1) as nat);
    let piece = window_registration(entries, k);
    if k == n - 1 {
        words::lemma_piece_added(before, piece);
    } else {
        lemma_window_registration(entries, k, (n - 1) as nat);
        words::lemma_piece_kept(before, window_registration(entries, n - 1), piece);
    }
}

/// Each window function has an arm, and is registered under the number of that arm.
pub proof fn law_window_registered_under_arm(entries: Seq<WindowEntry>, k: int)
    requires
        0 <= k < entries.len(),
        words::fresh(ir::window_names(entries), k),
    ensures
        words::has_piece(
            emit_lib::window_arms(entries, entries.len()),
            window_arm(entries, k),
        ),
        words::has_piece(
            register::window_registrations(entries, entries.len()),
            window_registration(entries, k),
        ),
{
    lemma_window_arm(entries, k, entries.len());
    lemma_window_registration(entries, k, entries.len());
}

/// The arm of the table function at `k`.
pub open spec fn table_arm(entries: Seq<UdtfEntry>, k: int) -> Seq<char> {
    emit_lib::arm(
        words::count_fresh(ir::udtf_names(entries), k as nat),
        dispatch::udtf_call_body(entries[k].shape, entries[k].sql_name@, emit_lib::ARM_INDENT@),
    )
}

/// The registration of the table function at `k`.
pub open spec fn table_registration(entries: Seq<UdtfEntry>, k: int) -> Seq<char> {
    register::table_registration(
        entries[k],
        words::count_fresh(ir::udtf_names(entries), k as nat),
    )
}

proof fn lemma_table_arm(entries: Seq<UdtfEntry>, k: int, n: nat)
    requires
        0 <= k < n <= entries.len(),
        words::fresh(ir::udtf_names(entries), k),
    ensures
        words::has_piece(emit_lib::table_arms(entries, n), table_arm(entries, k)),
    decreases n,
{
    let before = emit_lib::table_arms(entries, (n - 1) as nat);
    if k == n - 1 {
        words::lemma_piece_added(before, table_arm(entries, k));
    } else {
        lemma_table_arm(entries, k, (n - 1) as nat);
        words::lemma_piece_kept(before, table_arm(entries, n - 1), table_arm(entries, k));
    }
}

proof fn lemma_table_registration(entries: Seq<UdtfEntry>, k: int, n: nat)
    requires
        0 <= k < n <= entries.len(),
        words::fresh(ir::udtf_names(entries), k),
    ensures
        words::has_piece(
            register::table_registrations(entries, n),
            table_registration(entries, k),
        ),
    decreases n,
{
    let before = register::table_registrations(entries, (n - 1) as nat);
    let piece = table_registration(entries, k);
    if k == n - 1 {
        words::lemma_piece_added(before, piece);
    } else {
        lemma_table_registration(entries, k, (n - 1) as nat);
        words::lemma_piece_kept(before, table_registration(entries, n - 1), piece);
    }
}

/// Each table function has an arm, and is registered under the number of that arm.
pub proof fn law_table_registered_under_arm(entries: Seq<UdtfEntry>, k: int)
    requires
        0 <= k < entries.len(),
        words::fresh(ir::udtf_names(entries), k),
    ensures
        words::has_piece(
            emit_lib::table_arms(entries, entries.len()),
            table_arm(entries, k),
        ),
        words::has_piece(
            register::table_registrations(entries, entries.len()),
            table_registration(entries, k),
        ),
{
    lemma_table_arm(entries, k, entries.len());
    lemma_table_registration(entries, k, entries.len());
}

/// A cast that is registered runs the arm of the scalar that it names: the number that it is
/// registered with is that of an arm, and the arm is that of the first scalar of the name. Where
/// no scalar has the name, the cast is reported and not registered.
pub proof fn law_cast_runs_scalar_arm(entries: Seq<(DispatchEntry, bool)>, cast: CastRewrite)
    ensures
        match register::arm_of(ir::scalar_names(entries), cast.function_name@) {
            Some(i) => exists|k: int|
                0 <= k < entries.len() && #[trigger] ir::scalar_names(entries)[k]
                    == cast.function_name@ && words::fresh(ir::scalar_names(entries), k)
                    && words::count_fresh(ir::scalar_names(entries), k as nat) == i && words::has_piece(
                    emit_lib::scalar_arms(entries, entries.len()),
                    scalar_arm(entries, k),
                ),
            None => !ir::scalar_names(entries).contains(cast.function_name@),
        },
{
    let names = ir::scalar_names(entries);
    let k = register::first_named_from(names, cast.function_name@, 0);
    lemma_first_named(names, cast.function_name@, 0);
    if k < names.len() {
        assert(names[k] == cast.function_name@);
        assert(words::fresh(names, k));
        lemma_scalar_arm(entries, k, entries.len());
    }
}

proof fn lemma_first_named(names: Seq<Seq<char>>, x: Seq<char>, k: int)
    requires
        0 <= k <= names.len(),
    ensures
        k <= register::first_named_from(names, x, k) <= names.len(),
        forall|j: int| k <= j < register::first_named_from(names, x, k) ==> names[j] != x,
        register::first_named_from(names, x, k) < names.len() ==> names[register::first_named_from(
            names,
            x,
            k,
        )] == x,
    decreases names.len() - k,
{
    if k < names.len() && names[k] != x {
        lemma_first_named(names, x, k + 1);
    }
}

// ─── Handle tables ───

/// A registration puts its handle into the table of its family, and that table is defined.
pub proof fn law_registered_in_defined_table(family: Family, rest: Seq<char>)
    ensures
        words::has_piece(register::registered_in(family, rest), handle_table::lookup(family)),
        words::has_piece(handle_table::tables(), handle_table::definition(family)),
{
    let take = t::TAKE_HANDLE@;
    let lookup = handle_table::lookup(family);
    words::lemma_piece_added(take, lookup);
    words::lemma_piece_kept(take + lookup, rest, lookup);
    handle_table::law_table_defined(family);
}

/// The registration of a cast puts its handle into the table of scalars, which is defined.
pub proof fn law_cast_in_defined_table(arm_idx: nat, cast: CastRewrite)
    ensures
        words::has_piece(
            register::cast_registration(arm_idx, cast),
            handle_table::lookup(Family::Scalar),
        ),
        words::has_piece(handle_table::tables(), handle_table::definition(Family::Scalar)),
{
    let holes = register::cast_holes(arm_idx, cast);
    let take = text::fill(t::CAST_TAKE_HANDLE@, holes);
    let lookup = handle_table::lookup(Family::Scalar);
    words::lemma_piece_added(take, lookup);
    words::lemma_piece_kept(take + lookup, text::fill(t::CAST_REGISTRATION@, holes), lookup);
    handle_table::law_table_defined(Family::Scalar);
}

/// The dispatch looks up the arms of scalars, aggregates, table functions and window functions
/// in one table for each family, and these tables are defined.
pub proof fn law_dispatch_uses_defined_tables(plan: BridgePlan, inputs: emit_lib::BridgeInputs)
    ensures
        words::has_piece(
            emit_lib::source_dispatch(plan, inputs),
            handle_table::lookup(Family::Scalar),
        ),
        words::has_piece(
            emit_lib::source_dispatch(plan, inputs),
            handle_table::lookup(Family::Aggregate),
        ),
        words::has_piece(
            emit_lib::source_dispatch(plan, inputs),
            handle_table::lookup(Family::Table),
        ),
        words::has_piece(
            emit_lib::window_dispatch(
                ir::primary_name(plan),
                emit_lib::bridge_name(plan),
                inputs.window_entries@,
            ),
            handle_table::lookup(Family::Window),
        ),
        forall|family: Family|
            words::has_piece(handle_table::tables(), #[trigger] handle_table::definition(family)),
{
    let holes = emit_lib::dispatch_holes(plan, inputs);
    let start = text::fill(lib::DISPATCH_START@, holes);
    let aggregates = text::fill(lib::DISPATCH_AGGREGATE@, holes);
    let scalars = text::fill(lib::DISPATCH_SCALAR@, holes);
    let tables = text::fill(lib::DISPATCH_TABLE@, holes);
    let a = handle_table::lookup(Family::Aggregate);
    let s = handle_table::lookup(Family::Scalar);
    let b = handle_table::lookup(Family::Table);
    words::lemma_piece_added(start, a);
    words::lemma_piece_kept(start + a, aggregates, a);
    words::lemma_piece_kept(start + a + aggregates, s, a);
    words::lemma_piece_kept(start + a + aggregates + s, scalars, a);
    words::lemma_piece_kept(start + a + aggregates + s + scalars, b, a);
    words::lemma_piece_kept(start + a + aggregates + s + scalars + b, tables, a);
    words::lemma_piece_added(start + a + aggregates, s);
    words::lemma_piece_kept(start + a + aggregates + s, scalars, s);
    words::lemma_piece_kept(start + a + aggregates + s + scalars, b, s);
    words::lemma_piece_kept(start + a + aggregates + s + scalars + b, tables, s);
    words::lemma_piece_added(start + a + aggregates + s + scalars, b);
    words::lemma_piece_kept(start + a + aggregates + s + scalars + b, tables, b);
    let window_holes = emit_lib::window_holes(
        ir::primary_name(plan),
        emit_lib::bridge_name(plan),
        inputs.window_entries@,
    );
    let w = handle_table::lookup(Family::Window);
    let before = text::fill(lib::WINDOW_DISPATCH_START@, window_holes);
    words::lemma_piece_added(before, w);
    words::lemma_piece_kept(before + w, text::fill(lib::WINDOW_DISPATCH@, window_holes), w);
    assert forall|family: Family| words::has_piece(
        handle_table::tables(),
        #[trigger] handle_table::definition(family),
    ) by {
        handle_table::law_table_defined(family);
    }
}

// ─── Types ───

/// The value that the expression of a result makes is of the kind that the registration
/// declares: it is made with the variant of that kind, or for a record, which is declared as a
/// complex value, with the function that makes one. The texts in front of the value and behind
/// it, and the one that it is made from, name no value but null; so does the text for a result
/// without a value.
pub proof fn law_results_made_as_declared(
    ret: RetShape,
    call: Seq<char>,
    chain: Seq<char>,
    sql_name: Seq<char>,
    i: Seq<char>,
)
    requires
        dispatch::ret_wired(ret),
    ensures
        register::ret_logical(ret) == values::logical(values::made_kind(ret)),
        !(values::made_kind(ret) is Complex) ==> values::maker(ret) == values::variant(
            values::made_kind(ret),
        ),
        values::made_kind(ret) is Complex ==> exists|name: Seq<char>|
            values::maker(ret) == "ret_to_witvalue_"@ + #[trigger] words::snake(name),
        !(ret is Unit) ==> dispatch::return_expr(ret, call, chain, sql_name, i) == text::fill(
            dispatch::result_frame(ret, chain.len() == 0).0,
            dispatch::result_holes(ret, call, chain, sql_name, i),
        ) + dispatch::result_value(ret, call, chain, sql_name, i) + text::fill(
            dispatch::result_frame(ret, chain.len() == 0).1,
            dispatch::result_holes(ret, call, chain, sql_name, i),
        ),
        !(ret is Unit) ==> words::has_piece(
            dispatch::return_expr(ret, call, chain, sql_name, i),
            values::maker(ret) + "("@,
        ),
        ret is Unit ==> dispatch::return_expr(ret, call, chain, sql_name, i) == text::fill(
            templates::RET_UNIT@,
            dispatch::result_holes(ret, call, chain, sql_name, i),
        ),
        result_texts::names_only_null(dispatch::result_frame(ret, chain.len() == 0).0),
        result_texts::names_only_null(dispatch::result_frame(ret, chain.len() == 0).1),
        result_texts::names_only_null(dispatch::result_source(ret, chain.len() == 0)),
        result_texts::names_only_null(templates::RET_UNIT@),
{
    result_texts::law_frames_name_only_null(ret, chain.len() == 0);
    let holes = dispatch::result_holes(ret, call, chain, sql_name, i);
    let frame = dispatch::result_frame(ret, chain.len() == 0);
    let before = text::fill(frame.0, holes);
    let after = text::fill(frame.1, holes);
    let opened = values::maker(ret) + "("@;
    let source = text::fill(dispatch::result_source(ret, chain.len() == 0), holes);
    let value = dispatch::result_value(ret, call, chain, sql_name, i);
    words::lemma_piece_added(Seq::empty(), opened);
    assert(Seq::<char>::empty() + opened =~= opened);
    words::lemma_piece_kept(opened, source, opened);
    words::lemma_piece_kept(opened + source, ")"@, opened);
    words::lemma_piece_moved(before, value, opened);
    words::lemma_piece_kept(before + value, after, opened);
    match ret {
        RetShape::WitValueRecord { kebab_name }
        | RetShape::OptionWitValueRecord { kebab_name }
        | RetShape::FirstWitValueRecord { kebab_name } => {
            assert(values::maker(ret) == "ret_to_witvalue_"@ + words::snake(kebab_name@));
        },
        _ => {},
    }
}

/// An argument is read from the kind of value that the registration declares.
pub proof fn law_arguments_read_as_declared(
    p: ParamShape,
    idx: nat,
    last: bool,
    sql_name: Seq<char>,
    i: Seq<char>,
)
    requires
        dispatch::param_wired(p),
    ensures
        register::param_logical(p) == values::logical(values::read_kind(p)),
        !(p is OptionNone) ==> words::has_piece(
            dispatch::arg_decl(p, idx, last, sql_name, i),
            dispatch::arg_reading(p, idx, last, sql_name),
        ),
{
    let holes = dispatch::arg_holes(p, idx, sql_name, i);
    let frame = dispatch::arg_frame(p, last);
    let before = text::fill(frame.0, holes);
    let reading = dispatch::arg_reading(p, idx, last, sql_name);
    words::lemma_piece_added(before, reading);
    words::lemma_piece_kept(before + reading, text::fill(frame.1, holes), reading);
}

/// An extra argument of an aggregate or of a window function is read from the kind of value that
/// the registration declares.
pub proof fn law_extras_read_as_declared(p: ParamShape, j: nat, sql_name: Seq<char>, i: Seq<char>)
    ensures
        register::param_logical(p) == values::logical(values::read_kind(p)),
        calls::extra_wired(p) && !(p is OptionNone) ==> words::has_piece(
            dispatch::extra_decl(p, j, sql_name, i),
            dispatch::extra_reading(p, j, sql_name),
        ),
        words::has_piece(
            dispatch::window_extra_decl(p, j, sql_name, i),
            dispatch::window_extra_reading(p, j, sql_name),
        ),
{
    let holes = seq![("i"@, i), ("j"@, words::decimal(j))];
    let before = text::fill(templates::EXTRA@, holes);
    let reading = dispatch::extra_reading(p, j, sql_name);
    words::lemma_piece_added(before, reading);
    words::lemma_piece_kept(before + reading, values::narrowed(p), reading);
    let window_before = text::fill(templates::WINDOW_EXTRA@, holes);
    let window_reading = dispatch::window_extra_reading(p, j, sql_name);
    words::lemma_piece_added(window_before, window_reading);
    words::lemma_piece_kept(window_before + window_reading, values::narrowed(p), window_reading);
}

/// The functions that read values are one for each kind, but for lists, which are parsed from
/// text by functions of their own, and for records.
pub proof fn law_readers_by_kind(p: ParamShape)
    requires
        dispatch::param_wired(p),
    ensures
        match p {
            ParamShape::ListRecord { .. }
            | ParamShape::ListPrim(_)
            | ParamShape::ListTuple { .. }
            | ParamShape::ListListU8
            | ParamShape::ListListPrim(_) => values::read_kind(p) is Text,
            ParamShape::WitValueRecord { .. } => values::read_kind(p) is Complex,
            _ => values::reader(p) == values::plain_reader(values::read_kind(p)),
        },
{
}

/// The value that an aggregate of geometries or rasters makes is of the kind that the
/// registration declares.
pub proof fn law_aggregates_made_as_declared(
    shape: AggregateShape,
    acc: Seq<char>,
    sql_name: Seq<char>,
    i: Seq<char>,
)
    requires
        dispatch::aggregate_ret_wired(shape.ret),
    ensures
        register::ret_logical(shape.ret) == values::logical(values::made_kind(shape.ret)),
        words::has_piece(
            dispatch::aggregate_return(shape, acc, sql_name, i),
            values::made(
                values::made_kind(shape.ret),
                dispatch::aggregate_ret_texts(shape.ret).1,
            ),
        ),
{
    let holes = dispatch::aggregate_call_holes(shape, acc, sql_name, i);
    let texts = dispatch::aggregate_ret_texts(shape.ret);
    lemma_framed(
        text::fill(texts.0, holes),
        values::made(values::made_kind(shape.ret), texts.1),
        text::fill(texts.2, holes),
    );
}

/// The value that a window function makes is of the kind that the registration declares.
pub proof fn law_windows_made_as_declared(ret: WindowReturn, i: Seq<char>)
    ensures
        register::window_logical(ret) == values::logical(values::window_kind(ret)),
        words::has_piece(
            dispatch::window_return(ret, i),
            values::made(values::window_kind(ret), dispatch::window_ret_texts(ret).1),
        ),
{
    let texts = dispatch::window_ret_texts(ret);
    lemma_framed(
        text::fill(texts.0, seq![("i"@, i)]),
        values::made(values::window_kind(ret), texts.1),
        text::fill(texts.2, seq![("i"@, i)]),
    );
}

/// The values of the rows of a table function are of the kinds that the registration declares
/// for its columns; a field that cannot be handed on is null.
pub proof fn law_rows_made_as_declared(row: UdtfOutputRow, sql_name: Seq<char>, i: Seq<char>)
    ensures
        match row {
            UdtfOutputRow::SingleGeom { column_name } => register::columns(row)
                == register::column_def(column_name@, values::logical(ValueKind::Blob))
                && words::has_piece(
                dispatch::rows_text(row, sql_name, i),
                dispatch::single_value(row),
            ) && words::has_piece(
                dispatch::single_value(row),
                values::variant(ValueKind::Blob),
            ),
            UdtfOutputRow::SinglePrimitive { affinity } => register::columns(row)
                == register::column_def(
                "value"@,
                values::logical(values::affinity_kind(affinity)),
            ) && words::has_piece(
                dispatch::rows_text(row, sql_name, i),
                dispatch::single_value(row),
            ) && words::has_piece(
                dispatch::single_value(row),
                values::variant(values::affinity_kind(affinity)),
            ),
            UdtfOutputRow::Record { fields } => forall|k: int|
                0 <= k < fields@.len() ==> {
                    let shape = #[trigger] fields@[k].field_shape;
                    &&& register::field_logical(shape) == values::logical(
                        values::field_kind(shape),
                    )
                    &&& shape is Unsupported ==> dispatch::field_expr(fields@[k])
                        == "types::Duckvalue::Null"@
                    &&& !(shape is Unsupported) ==> words::has_piece(
                        dispatch::field_expr(fields@[k]),
                        values::variant(values::field_kind(shape)),
                    )
                },
            UdtfOutputRow::Unwired { .. } => true,
        },
{
    match row {
        UdtfOutputRow::SingleGeom { .. } => {
            lemma_framed(
                text::fill(templates::UDTF_SINGLE_GEOM@, seq![("i"@, i)]),
                dispatch::single_value(row),
                text::fill(templates::UDTF_SINGLE_END@, seq![("i"@, i)]),
            );
            lemma_variant_made(ValueKind::Blob, "__g.as_wkb()"@);
        },
        UdtfOutputRow::SinglePrimitive { affinity } => {
            lemma_framed(
                text::fill(templates::UDTF_SINGLE_PRIMITIVE@, seq![("i"@, i)]),
                dispatch::single_value(row),
                text::fill(templates::UDTF_SINGLE_END@, seq![("i"@, i)]),
            );
            lemma_variant_made(
                values::affinity_kind(affinity),
                dispatch::primitive_source(affinity),
            );
        },
        UdtfOutputRow::Record { fields } => {
            assert forall|k: int|
                0 <= k < fields@.len() && !((#[trigger] fields@[k].field_shape) is Unsupported) implies
                words::has_piece(
                    dispatch::field_expr(fields@[k]),
                    values::variant(values::field_kind(fields@[k].field_shape)),
                ) by {
                let f = fields@[k];
                let holes = seq![("snake"@, words::snake(f.name@))];
                let texts = dispatch::field_texts(f.field_shape);
                let kind = values::field_kind(f.field_shape);
                let source = text::fill(texts.1, holes);
                let before = text::fill(texts.0, holes);
                lemma_variant_made(kind, source);
                words::lemma_piece_moved(before, values::made(kind, source), values::variant(kind));
                words::lemma_piece_kept(
                    before + values::made(kind, source),
                    texts.2,
                    values::variant(kind),
                );
            }
        },
        UdtfOutputRow::Unwired { .. } => {},
    }
}

proof fn lemma_framed(before: Seq<char>, value: Seq<char>, after: Seq<char>)
    ensures
        words::has_piece(before + value + after, value),
{
    words::lemma_piece_added(before, value);
    words::lemma_piece_kept(before + value, after, value);
}

proof fn lemma_variant_made(kind: ValueKind, source: Seq<char>)
    ensures
        words::has_piece(values::made(kind, source), values::variant(kind)),
{
    let variant = values::variant(kind);
    words::lemma_piece_added(Seq::empty(), variant);
    assert(Seq::<char>::empty() + variant =~= variant);
    words::lemma_piece_kept(variant, "("@, variant);
    words::lemma_piece_kept(variant + "("@, source, variant);
    words::lemma_piece_kept(variant + "("@ + source, ")"@, variant);
}

} // verus!
