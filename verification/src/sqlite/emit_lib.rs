//! The source of a bridge crate.

use vstd::prelude::*;
use vstd::string::*;

use crate::derives;
use crate::gather;
use crate::ir::{
    self, AccKind, AggregateEntry, BridgePlan, DispatchEntry, Extension, RecordType, RetShape, UdtfEntry,
    WindowEntry, WitPackage,
};
use crate::order;
use crate::packages;
use crate::sqlite::dispatch;
use crate::sqlite::emit_records;
use crate::sqlite::emit_vtab::{self, ARM_INDENT};
use crate::sqlite::emit_window;
use crate::sqlite::lib_templates as t;
use crate::sqlite::listing::{self, Listed, ListedFn};
use crate::text::{self, cat, fill1, fill2, fill5, fill8};
use crate::words::{self, decimal_u64, pascal_case};

verus! {

/// What the source of a bridge is written from, beside the plan.
pub struct BridgeInputs {
    pub shim_packages: Vec<WitPackage>,
    pub contract_package: WitPackage,
    /// The module that each module alias stands for.
    pub module_idents: Vec<(String, String)>,
    pub scalar_entries: Vec<(DispatchEntry, bool)>,
    pub aggregate_entries: Vec<AggregateEntry>,
    pub udtf_entries: Vec<UdtfEntry>,
    pub window_entries: Vec<WindowEntry>,
    /// The text that refers to every function of the shim, so that none is left out when linking.
    pub force_link_block: String,
}

/// Whether arms can be written for all scalars.
pub open spec fn scalars_wired(entries: Seq<(DispatchEntry, bool)>) -> bool {
    forall|k: int| 0 <= k < entries.len() ==> dispatch::scalar_wired((#[trigger] entries[k]).0.shape)
}

/// Whether arms can be written for all aggregates.
pub open spec fn aggregates_wired(entries: Seq<AggregateEntry>) -> bool {
    forall|k: int|
        0 <= k < entries.len() ==> dispatch::aggregate_wired((#[trigger] entries[k]).shape)
}

/// Whether arms can be written for all entries, and their numbers of arguments fit.
pub open spec fn inputs_wired(inputs: BridgeInputs) -> bool {
    scalars_wired(inputs.scalar_entries@) && aggregates_wired(inputs.aggregate_entries@)
        && listing::entries_fit(inputs.window_entries@)
}

/// Whether the numbers of arguments of an extension's functions fit.
pub open spec fn extension_fits(ext: Extension) -> bool {
    &&& listing::scalars_fit(ext.scalars@)
    &&& listing::aggregates_fit(ext.aggregates@)
    &&& listing::windows_fit(ext.window_functions@)
}

/// Whether the numbers of arguments of a plan's functions fit.
pub open spec fn args_fit(plan: BridgePlan) -> bool {
    forall|k: int|
        0 <= k < plan.extensions@.len() ==> extension_fits(#[trigger] plan.extensions@[k])
}

/// Whether the numbers of a plan's functions and of their arguments fit.
pub open spec fn plan_fits(plan: BridgePlan, windows: Seq<WindowEntry>) -> bool {
    &&& args_fit(plan)
    &&& listing::ids_fit(listing::scalars_of(plan), listing::SCALAR_BASE as nat)
    &&& listing::ids_fit(listing::aggregates_of(plan), listing::AGGREGATE_BASE as nat)
    &&& listing::ids_fit(listing::tables_of(plan), listing::TABLE_BASE as nat)
    &&& listing::ids_fit(listing::windows_of(plan, windows), listing::WINDOW_BASE as nat)
}

// ─── Modules ───

/// All modules that arms call into, each with its package.
pub open spec fn used_modules(inputs: BridgeInputs) -> Seq<text::Binding> {
    gather::modules_of(
        inputs.scalar_entries@,
        inputs.aggregate_entries@,
        inputs.udtf_entries@,
        inputs.window_entries@,
    )
}

fn render_module_uses(inputs: &BridgeInputs) -> (r: String)
    ensures
        r@ == gather::uses(used_modules(*inputs), packages::pairs(inputs.module_idents@)),
{
    let modules = gather::list_modules(
        &inputs.scalar_entries,
        &inputs.aggregate_entries,
        &inputs.udtf_entries,
        &inputs.window_entries,
    );
    gather::render_uses(&modules, &inputs.module_idents)
}

// ─── Lists of tuples ───

/// `base` followed by the signatures of the lists of tuples among the extra arguments of the
/// first `n` aggregates.
pub open spec fn with_aggregate_signatures(
    base: Seq<Seq<char>>,
    entries: Seq<AggregateEntry>,
    n: nat,
) -> Seq<Seq<char>>
    decreases n,
{
    if n == 0 {
        base
    } else {
        let extras = entries[n - 1].shape.extra_args@;
        gather::with_signatures(
            with_aggregate_signatures(base, entries, (n - 1) as nat),
            extras,
            extras.len(),
        )
    }
}

/// `base` followed by the signatures of the lists of tuples among the parameters of the first
/// `n` table functions.
pub open spec fn with_table_signatures(
    base: Seq<Seq<char>>,
    entries: Seq<UdtfEntry>,
    n: nat,
) -> Seq<Seq<char>>
    decreases n,
{
    if n == 0 {
        base
    } else {
        let params = entries[n - 1].shape.params@;
        gather::with_signatures(
            with_table_signatures(base, entries, (n - 1) as nat),
            params,
            params.len(),
        )
    }
}

/// The different signatures of lists of tuples that arms take, in order.
pub open spec fn tuple_signatures(
    scalars: Seq<(DispatchEntry, bool)>,
    aggregates: Seq<AggregateEntry>,
    tables: Seq<UdtfEntry>,
) -> Seq<Seq<char>> {
    order::sorted_set(
        with_table_signatures(
            with_aggregate_signatures(
                gather::scalar_signatures(scalars, scalars.len()),
                aggregates,
                aggregates.len(),
            ),
            tables,
            tables.len(),
        ),
    )
}

/// Collects the different signatures of lists of tuples that arms take, in order.
pub fn collect_tuple_list_sigs(
    scalar_entries: &Vec<(DispatchEntry, bool)>,
    agg_entries: &Vec<AggregateEntry>,
    udtf_entries: &Vec<UdtfEntry>,
) -> (r: Vec<String>)
    ensures
        text::strs(r@) == tuple_signatures(scalar_entries@, agg_entries@, udtf_entries@),
{
    let mut all: Vec<String> = Vec::new();
    let mut k: usize = 0;
    assert(text::strs(all@) =~= Seq::<Seq<char>>::empty());
    while k < scalar_entries.len()
        invariant
            k <= scalar_entries@.len(),
            text::strs(all@) == gather::scalar_signatures(scalar_entries@, k as nat),
        decreases scalar_entries.len() - k,
    {
        gather::push_signatures(&mut all, &scalar_entries[k].0.shape.params);
        k = k + 1;
    }
    let ghost base = text::strs(all@);
    k = 0;
    while k < agg_entries.len()
        invariant
            k <= agg_entries@.len(),
            text::strs(all@) == with_aggregate_signatures(base, agg_entries@, k as nat),
        decreases agg_entries.len() - k,
    {
        gather::push_signatures(&mut all, &agg_entries[k].shape.extra_args);
        k = k + 1;
    }
    let ghost base2 = text::strs(all@);
    k = 0;
    while k < udtf_entries.len()
        invariant
            k <= udtf_entries@.len(),
            text::strs(all@) == with_table_signatures(base2, udtf_entries@, k as nat),
        decreases udtf_entries.len() - k,
    {
        gather::push_signatures(&mut all, &udtf_entries[k].shape.params);
        k = k + 1;
    }
    order::sorted(&all)
}

/// Writes the helpers that read lists of tuples, one for each signature.
pub fn render_tuple_list_helpers(sigs: &Vec<String>) -> (r: String)
    ensures
        r@ == gather::tuple_helpers_block(
            t::TUPLE_HELPERS_HEADER@,
            t::TUPLE_HELPER@,
            text::strs(sigs@),
        ),
{
    gather::render_tuple_helpers(t::TUPLE_HELPERS_HEADER, t::TUPLE_HELPER, sigs)
}

// ─── Records ───

/// `base` followed by the records of the first `n` aggregates: of their extra arguments, their
/// results, and what they accumulate.
pub open spec fn with_aggregate_records(
    base: Seq<Seq<char>>,
    entries: Seq<AggregateEntry>,
    n: nat,
) -> Seq<Seq<char>>
    decreases n,
{
    if n == 0 {
        base
    } else {
        let shape = entries[n - 1].shape;
        gather::with_acc_records(
            gather::with_ret_record(
                gather::with_param_records(
                    with_aggregate_records(base, entries, (n - 1) as nat),
                    shape.extra_args@,
                    shape.extra_args@.len(),
                ),
                shape.ret,
            ),
            shape.accumulator_kind,
        )
    }
}

/// `base` followed by the records among the parameters of the first `n` table functions.
pub open spec fn with_table_records(
    base: Seq<Seq<char>>,
    entries: Seq<UdtfEntry>,
    n: nat,
) -> Seq<Seq<char>>
    decreases n,
{
    if n == 0 {
        base
    } else {
        let params = entries[n - 1].shape.params@;
        gather::with_param_records(
            with_table_records(base, entries, (n - 1) as nat),
            params,
            params.len(),
        )
    }
}

/// The records that arms read or write, in order.
pub open spec fn referenced_records(
    scalars: Seq<(DispatchEntry, bool)>,
    aggregates: Seq<AggregateEntry>,
    tables: Seq<UdtfEntry>,
) -> Seq<Seq<char>> {
    order::sorted_set(
        with_table_records(
            with_aggregate_records(
                gather::scalar_records(scalars, scalars.len()),
                aggregates,
                aggregates.len(),
            ),
            tables,
            tables.len(),
        ),
    )
}

fn push_ret_record(out: &mut Vec<String>, ret: &RetShape)
    ensures
        text::strs(final(out)@) == gather::with_ret_record(text::strs(old(out)@), *ret),
{
    match ret {
        RetShape::WitValueRecord { kebab_name } => gather::push_text(out, kebab_name.as_str()),
        RetShape::OptionWitValueRecord { kebab_name } => gather::push_text(
            out,
            kebab_name.as_str(),
        ),
        RetShape::FirstWitValueRecord { kebab_name } => gather::push_text(
            out,
            kebab_name.as_str(),
        ),
        _ => {},
    }
}

fn push_acc_records(out: &mut Vec<String>, acc: &AccKind)
    ensures
        text::strs(final(out)@) == gather::with_acc_records(text::strs(old(out)@), *acc),
{
    match acc {
        AccKind::Record { input, output } => {
            gather::push_text(out, input.kebab_name.as_str());
            gather::push_text(out, output.kebab_name.as_str());
        },
        AccKind::RecordSetToRecordSet { input, output } => {
            gather::push_text(out, input.kebab_name.as_str());
            gather::push_text(out, output.kebab_name.as_str());
        },
        AccKind::RecordToScalar { input, output: _, optional: _ } => gather::push_text(
            out,
            input.kebab_name.as_str(),
        ),
        AccKind::RecordToTuple { input, optional: _ } => gather::push_text(
            out,
            input.kebab_name.as_str(),
        ),
        AccKind::RecordToListPrim { input } => gather::push_text(out, input.kebab_name.as_str()),
        _ => {},
    }
}

/// Collects the records that arms read or write, in order.
pub fn collect_referenced_records(
    scalar_entries: &Vec<(DispatchEntry, bool)>,
    agg_entries: &Vec<AggregateEntry>,
    udtf_entries: &Vec<UdtfEntry>,
) -> (r: Vec<String>)
    ensures
        text::strs(r@) == referenced_records(scalar_entries@, agg_entries@, udtf_entries@),
{
    let mut out: Vec<String> = Vec::new();
    let mut k: usize = 0;
    assert(text::strs(out@) =~= Seq::<Seq<char>>::empty());
    while k < scalar_entries.len()
        invariant
            k <= scalar_entries@.len(),
            text::strs(out@) == gather::scalar_records(scalar_entries@, k as nat),
        decreases scalar_entries.len() - k,
    {
        let shape = &scalar_entries[k].0.shape;
        gather::push_param_records(&mut out, &shape.params);
        push_ret_record(&mut out, &shape.ret);
        k = k + 1;
    }
    let ghost base = text::strs(out@);
    k = 0;
    while k < agg_entries.len()
        invariant
            k <= agg_entries@.len(),
            text::strs(out@) == with_aggregate_records(base, agg_entries@, k as nat),
        decreases agg_entries.len() - k,
    {
        let shape = &agg_entries[k].shape;
        gather::push_param_records(&mut out, &shape.extra_args);
        push_ret_record(&mut out, &shape.ret);
        push_acc_records(&mut out, &shape.accumulator_kind);
        k = k + 1;
    }
    let ghost base2 = text::strs(out@);
    k = 0;
    while k < udtf_entries.len()
        invariant
            k <= udtf_entries@.len(),
            text::strs(out@) == with_table_records(base2, udtf_entries@, k as nat),
        decreases udtf_entries.len() - k,
    {
        gather::push_param_records(&mut out, &udtf_entries[k].shape.params);
        k = k + 1;
    }
    order::sorted(&out)
}

// ─── Scalars ───

/// The number of the arm of the scalar at `k`, where it gets one.
pub open spec fn scalar_arm(
    entries: Seq<(DispatchEntry, bool)>,
    scalars: Seq<ListedFn>,
    k: nat,
) -> Option<nat> {
    listing::arm_at(
        Seq::empty(),
        ir::scalar_names(entries),
        scalars,
        listing::SCALAR_BASE as nat,
        k,
    )
}

/// An arm of a dispatcher.
pub open spec fn arm(id: nat, body: Seq<char>) -> Seq<char> {
    text::fill(t::ARM@, seq![("id"@, words::decimal(id)), ("body"@, body)])
}

fn render_arm(id: u64, body: &str) -> (r: String)
    ensures
        r@ == arm(id as nat, body@),
{
    let number = decimal_u64(id);
    fill2(t::ARM, "id", number.as_str(), "body", body)
}

/// The arms of the first `n` scalars.
pub open spec fn scalar_arms(
    entries: Seq<(DispatchEntry, bool)>,
    scalars: Seq<ListedFn>,
    n: nat,
) -> Seq<char>
    decreases n,
{
    if n == 0 {
        Seq::empty()
    } else {
        let (entry, fallible) = entries[n - 1];
        scalar_arms(entries, scalars, (n - 1) as nat) + match scalar_arm(
            entries,
            scalars,
            (n - 1) as nat,
        ) {
            Some(id) => arm(
                id,
                dispatch::scalar_arm_body(entry.shape, fallible, entry.sql_name@, ARM_INDENT@),
            ),
            None => Seq::empty(),
        }
    }
}

/// The implementation of scalars.
pub open spec fn scalar_impl(
    bridge_struct: Seq<char>,
    entries: Seq<(DispatchEntry, bool)>,
    scalars: Seq<ListedFn>,
) -> Seq<char> {
    text::fill(
        t::SCALAR_IMPL@,
        seq![
            ("bridge_struct"@, bridge_struct),
            ("arms"@, scalar_arms(entries, scalars, entries.len())),
        ],
    )
}

/// Writes the implementation of scalars, with an arm for each.
pub fn emit_scalar_impl(
    bridge_struct: &str,
    scalar_entries: &Vec<(DispatchEntry, bool)>,
    scalars: &Vec<Listed>,
) -> (r: String)
    requires
        scalars_wired(scalar_entries@),
        listing::ids_fit(listing::listed(scalars@), listing::SCALAR_BASE as nat),
    ensures
        r@ == scalar_impl(bridge_struct@, scalar_entries@, listing::listed(scalars@)),
{
    let ghost all = listing::listed(scalars@);
    let ghost names = ir::scalar_names(scalar_entries@);
    let ghost base = listing::SCALAR_BASE as nat;
    let mut seen: Vec<u64> = Vec::new();
    let mut arms = String::new();
    let mut k: usize = 0;
    assert(listing::numbers(seen@) =~= Seq::<nat>::empty());
    while k < scalar_entries.len()
        invariant
            k <= scalar_entries@.len(),
            scalars_wired(scalar_entries@),
            all == listing::listed(scalars@),
            names == ir::scalar_names(scalar_entries@),
            base == listing::SCALAR_BASE as nat,
            listing::ids_fit(all, base),
            listing::numbers(seen@) == listing::arm_ids(Seq::empty(), names, all, base, k as nat),
            arms@ == scalar_arms(scalar_entries@, all, k as nat),
        decreases scalar_entries.len() - k,
    {
        let entry = &scalar_entries[k].0;
        assert(names[k as int] == entry.sql_name@);
        assert(dispatch::scalar_wired(scalar_entries@[k as int].0.shape));
        match listing::next_arm(&mut seen, scalars, listing::SCALAR_BASE, entry.sql_name.as_str()) {
            Some(id) => {
                let body = dispatch::emit_arm_body(
                    &entry.shape,
                    scalar_entries[k].1,
                    entry.sql_name.as_str(),
                    ARM_INDENT,
                );
                let one = render_arm(id, body.as_str());
                arms.append(one.as_str());
            },
            None => {
                assert(arms@ + Seq::<char>::empty() =~= arms@);
            },
        }
        k = k + 1;
    }
    fill2(t::SCALAR_IMPL, "bridge_struct", bridge_struct, "arms", arms.as_str())
}

// ─── Aggregates and window functions ───

/// The numbers of the arms of the first `n` names of aggregates.
pub open spec fn aggregate_arm_ids(
    entries: Seq<AggregateEntry>,
    aggregates: Seq<ListedFn>,
    n: nat,
) -> Seq<nat> {
    listing::arm_ids(
        Seq::empty(),
        ir::firsts(ir::aggregate_names(entries)),
        aggregates,
        listing::AGGREGATE_BASE as nat,
        n,
    )
}

/// The number of the arm of the aggregate name at `k`, where it gets one.
pub open spec fn aggregate_arm(
    entries: Seq<AggregateEntry>,
    aggregates: Seq<ListedFn>,
    k: nat,
) -> Option<nat> {
    listing::arm_at(
        Seq::empty(),
        ir::firsts(ir::aggregate_names(entries)),
        aggregates,
        listing::AGGREGATE_BASE as nat,
        k,
    )
}

/// The step arms of the first `n` names of aggregates.
pub open spec fn step_arms(entries: Seq<AggregateEntry>, aggregates: Seq<ListedFn>, n: nat) -> Seq<
    char,
>
    decreases n,
{
    if n == 0 {
        Seq::empty()
    } else {
        let (name, at) = ir::aggregate_names(entries)[n - 1];
        step_arms(entries, aggregates, (n - 1) as nat) + match aggregate_arm(
            entries,
            aggregates,
            (n - 1) as nat,
        ) {
            Some(id) => arm(id, dispatch::aggregate_step(entries[at].shape, name, ARM_INDENT@)),
            None => Seq::empty(),
        }
    }
}

/// The result arms of the first `n` names of aggregates.
pub open spec fn final_arms(entries: Seq<AggregateEntry>, aggregates: Seq<ListedFn>, n: nat) -> Seq<
    char,
>
    decreases n,
{
    if n == 0 {
        Seq::empty()
    } else {
        let (name, at) = ir::aggregate_names(entries)[n - 1];
        final_arms(entries, aggregates, (n - 1) as nat) + match aggregate_arm(
            entries,
            aggregates,
            (n - 1) as nat,
        ) {
            Some(id) => arm(id, dispatch::aggregate_finalize(entries[at].shape, name, ARM_INDENT@)),
            None => Seq::empty(),
        }
    }
}

/// An arm that only needs its number and the name of what computes a window function.
pub open spec fn window_arm_text(template: Seq<char>, id: nat) -> Seq<char> {
    text::fill(
        template,
        seq![("id"@, words::decimal(id)), ("compute_fn"@, emit_window::compute_name(id))],
    )
}

/// Arms of the first `n` window functions, where arms had the numbers in `taken` before.
pub open spec fn window_arms(
    template: Seq<char>,
    taken: Seq<nat>,
    entries: Seq<WindowEntry>,
    windows: Seq<ListedFn>,
    n: nat,
) -> Seq<char>
    decreases n,
{
    if n == 0 {
        Seq::empty()
    } else {
        window_arms(template, taken, entries, windows, (n - 1) as nat) + match listing::arm_at(
            taken,
            ir::window_names(entries),
            windows,
            listing::WINDOW_BASE as nat,
            (n - 1) as nat,
        ) {
            Some(id) => window_arm_text(template, id),
            None => Seq::empty(),
        }
    }
}

/// The implementation of aggregates and window functions. A window function keeps the arguments
/// of its rows at each step and computes at the first value.
pub open spec fn aggregate_impl(
    bridge_struct: Seq<char>,
    entries: Seq<AggregateEntry>,
    aggregates: Seq<ListedFn>,
    window_entries: Seq<WindowEntry>,
    windows: Seq<ListedFn>,
) -> Seq<char> {
    let n = ir::aggregate_names(entries).len();
    let taken = aggregate_arm_ids(entries, aggregates, n);
    let none = Seq::<nat>::empty();
    let m = window_entries.len();
    text::fill(
        t::AGGREGATE_IMPL@,
        seq![
            ("bridge_struct"@, bridge_struct),
            (
                "step_arms"@,
                step_arms(entries, aggregates, n) + window_arms(
                    t::WINDOW_STEP_ARM@,
                    taken,
                    window_entries,
                    windows,
                    m,
                ),
            ),
            (
                "final_arms"@,
                final_arms(entries, aggregates, n) + window_arms(
                    t::WINDOW_FINALIZE_ARM@,
                    taken,
                    window_entries,
                    windows,
                    m,
                ),
            ),
            (
                "value_arms"@,
                window_arms(t::WINDOW_VALUE_ARM@, none, window_entries, windows, m),
            ),
            (
                "inverse_arms"@,
                window_arms(t::WINDOW_INVERSE_ARM@, none, window_entries, windows, m),
            ),
        ],
    )
}

fn render_window_arms(
    template: &str,
    taken: Vec<u64>,
    entries: &Vec<WindowEntry>,
    windows: &Vec<Listed>,
) -> (r: String)
    requires
        listing::ids_fit(listing::listed(windows@), listing::WINDOW_BASE as nat),
    ensures
        r@ == window_arms(
            template@,
            listing::numbers(taken@),
            entries@,
            listing::listed(windows@),
            entries@.len(),
        ),
{
    let ghost all = listing::listed(windows@);
    let ghost names = ir::window_names(entries@);
    let ghost base = listing::WINDOW_BASE as nat;
    let ghost before = listing::numbers(taken@);
    let mut seen = taken;
    let mut r = String::new();
    let mut k: usize = 0;
    while k < entries.len()
        invariant
            k <= entries@.len(),
            all == listing::listed(windows@),
            names == ir::window_names(entries@),
            base == listing::WINDOW_BASE as nat,
            listing::ids_fit(all, base),
            listing::numbers(seen@) == listing::arm_ids(before, names, all, base, k as nat),
            r@ == window_arms(template@, before, entries@, all, k as nat),
        decreases entries.len() - k,
    {
        let name = entries[k].sql_name.as_str();
        assert(names[k as int] == name@);
        match listing::next_arm(&mut seen, windows, listing::WINDOW_BASE, name) {
            Some(id) => {
                let number = decimal_u64(id);
                let compute_fn = emit_window::window_compute_fn_name(id);
                let one = fill2(
                    template,
                    "id",
                    number.as_str(),
                    "compute_fn",
                    compute_fn.as_str(),
                );
                r.append(one.as_str());
            },
            None => {
                assert(r@ + Seq::<char>::empty() =~= r@);
            },
        }
        k = k + 1;
    }
    r
}

fn copy_numbers(v: &Vec<u64>) -> (r: Vec<u64>)
    ensures
        r@ == v@,
{
    let mut r: Vec<u64> = Vec::new();
    let mut k: usize = 0;
    while k < v.len()
        invariant
            k <= v@.len(),
            r@ == v@.take(k as int),
        decreases v.len() - k,
    {
        r.push(v[k]);
        assert(v@.take(k + 1) =~= v@.take(k as int).push(v@[k as int]));
        k = k + 1;
    }
    assert(v@.take(k as int) =~= v@);
    r
}

/// Writes the implementation of aggregates and window functions, with arms for each.
pub fn emit_aggregate_impl(
    bridge_struct: &str,
    agg_entries: &Vec<AggregateEntry>,
    aggregates: &Vec<Listed>,
    window_entries: &Vec<WindowEntry>,
    windows: &Vec<Listed>,
) -> (r: String)
    requires
        aggregates_wired(agg_entries@),
        listing::ids_fit(listing::listed(aggregates@), listing::AGGREGATE_BASE as nat),
        listing::ids_fit(listing::listed(windows@), listing::WINDOW_BASE as nat),
    ensures
        r@ == aggregate_impl(
            bridge_struct@,
            agg_entries@,
            listing::listed(aggregates@),
            window_entries@,
            listing::listed(windows@),
        ),
{
    let ghost all = listing::listed(aggregates@);
    let ghost base = listing::AGGREGATE_BASE as nat;
    let ghost named = ir::aggregate_names(agg_entries@);
    let (names, at) = ir::list_aggregate_names(agg_entries);
    let mut seen: Vec<u64> = Vec::new();
    let mut steps = String::new();
    let mut finals = String::new();
    let mut k: usize = 0;
    assert(listing::numbers(seen@) =~= Seq::<nat>::empty());
    while k < names.len()
        invariant
            k <= names@.len(),
            names@.len() == at@.len(),
            named == ir::aggregate_names(agg_entries@),
            ir::named_positions(names@, at@) == named,
            text::strs(names@) == ir::firsts(named),
            forall|j: int| 0 <= j < at@.len() ==> #[trigger] at@[j] < agg_entries@.len(),
            aggregates_wired(agg_entries@),
            all == listing::listed(aggregates@),
            base == listing::AGGREGATE_BASE as nat,
            listing::ids_fit(all, base),
            listing::numbers(seen@) == aggregate_arm_ids(agg_entries@, all, k as nat),
            steps@ == step_arms(agg_entries@, all, k as nat),
            finals@ == final_arms(agg_entries@, all, k as nat),
        decreases names.len() - k,
    {
        let name = names[k].as_str();
        let entry = &agg_entries[at[k]];
        proof {
            assert(named[k as int] == (name@, at@[k as int] as int));
            assert(ir::firsts(named)[k as int] == name@);
            assert(dispatch::aggregate_wired(agg_entries@[at@[k as int] as int].shape));
        }
        match listing::next_arm(&mut seen, aggregates, listing::AGGREGATE_BASE, name) {
            Some(id) => {
                let step_body = dispatch::emit_aggregate_step_body(&entry.shape, name, ARM_INDENT);
                let step = render_arm(id, step_body.as_str());
                steps.append(step.as_str());
                let final_body = dispatch::emit_aggregate_finalize_body(
                    &entry.shape,
                    name,
                    ARM_INDENT,
                );
                let result = render_arm(id, final_body.as_str());
                finals.append(result.as_str());
            },
            None => {
                proof {
                    assert(steps@ + Seq::<char>::empty() =~= steps@);
                    assert(finals@ + Seq::<char>::empty() =~= finals@);
                }
            },
        }
        k = k + 1;
    }
    assert(names@.len() == named.len());
    let taken = copy_numbers(&seen);
    let window_steps = render_window_arms(t::WINDOW_STEP_ARM, taken, window_entries, windows);
    steps.append(window_steps.as_str());
    let window_finals = render_window_arms(t::WINDOW_FINALIZE_ARM, seen, window_entries, windows);
    finals.append(window_finals.as_str());
    let none: Vec<u64> = Vec::new();
    let none2: Vec<u64> = Vec::new();
    proof {
        assert(listing::numbers(none@) =~= Seq::<nat>::empty());
        assert(listing::numbers(none2@) =~= Seq::<nat>::empty());
    }
    let values = render_window_arms(t::WINDOW_VALUE_ARM, none, window_entries, windows);
    let inverses = render_window_arms(t::WINDOW_INVERSE_ARM, none2, window_entries, windows);
    fill5(
        t::AGGREGATE_IMPL,
        "bridge_struct",
        bridge_struct,
        "step_arms",
        steps.as_str(),
        "final_arms",
        finals.as_str(),
        "value_arms",
        values.as_str(),
        "inverse_arms",
        inverses.as_str(),
    )
}

// ─── The manifest ───

/// The implementation of the manifest: it lists the functions of a plan, wired or not, and its
/// records.
pub open spec fn metadata_impl(
    plan: BridgePlan,
    bridge_struct: Seq<char>,
    records: Seq<RecordType>,
    window_entries: Seq<WindowEntry>,
) -> Seq<char> {
    let scalars = listing::scalars_of(plan);
    let aggregates = listing::aggregates_of(plan);
    let windows = listing::windows_of(plan, window_entries);
    let tables = listing::tables_of(plan);
    text::fill(
        t::METADATA_IMPL@,
        seq![
            ("bridge_struct"@, bridge_struct),
            (
                "typed_value_use"@,
                if records.len() > 0 {
                    t::TYPED_VALUE_USE@
                } else {
                    ""@
                },
            ),
            ("scalar_entries"@, listing::scalar_entries(scalars, scalars.len())),
            (
                "agg_entries"@,
                listing::aggregate_entries(
                    aggregates,
                    listing::AGGREGATE_BASE as nat,
                    false,
                    aggregates.len(),
                ) + listing::aggregate_entries(
                    windows,
                    listing::WINDOW_BASE as nat,
                    true,
                    windows.len(),
                ),
            ),
            ("vtab_entries"@, listing::vtab_entries(tables, tables.len())),
            (
                "typed_value_entries"@,
                emit_records::typed_value_entries(records, records.len()),
            ),
            ("primary"@, ir::primary_name(plan)),
            ("version"@, ir::primary_version(plan)),
        ],
    )
}

/// Writes the implementation of the manifest.
pub fn emit_metadata_impl(
    plan: &BridgePlan,
    bridge_struct: &str,
    records: &Vec<RecordType>,
    window_entries: &Vec<WindowEntry>,
) -> (r: String)
    requires
        plan_fits(*plan, window_entries@),
        listing::entries_fit(window_entries@),
    ensures
        r@ == metadata_impl(*plan, bridge_struct@, records@, window_entries@),
{
    let scalars = listing::build_scalar_id_index(plan);
    let aggregates = listing::build_aggregate_id_index(plan);
    let windows = listing::build_window_id_index(plan, window_entries);
    let tables = listing::build_udtf_id_index(plan);
    let scalar_entries = listing::render_scalar_entries(&scalars);
    let mut agg_entries = listing::render_aggregate_entries(
        &aggregates,
        listing::AGGREGATE_BASE,
        false,
    );
    let window_lines = listing::render_aggregate_entries(&windows, listing::WINDOW_BASE, true);
    agg_entries.append(window_lines.as_str());
    let vtab_entries = listing::render_vtab_entries(&tables);
    let typed_values = emit_records::render_typed_value_entries(records);
    let typed_value_use = if records.len() > 0 {
        t::TYPED_VALUE_USE
    } else {
        ""
    };
    fill8(
        t::METADATA_IMPL,
        "bridge_struct",
        bridge_struct,
        "typed_value_use",
        typed_value_use,
        "scalar_entries",
        scalar_entries.as_str(),
        "agg_entries",
        agg_entries.as_str(),
        "vtab_entries",
        vtab_entries.as_str(),
        "typed_value_entries",
        typed_values.as_str(),
        "primary",
        ir::primary_extension_name(plan),
        "version",
        ir::primary_extension_version(plan),
    )
}

// ─── The prelude ───

/// The decoders of rasters.
pub fn render_raster_helpers(pkg_ns: &str, pkg_name: &str) -> (r: String)
    ensures
        r@ == text::fill(t::RASTER_HELPERS@, seq![("pkg_ns"@, pkg_ns@), ("pkg_name"@, pkg_name@)]),
{
    fill2(t::RASTER_HELPERS, "pkg_ns", pkg_ns, "pkg_name", pkg_name)
}

/// The decoders of topologies.
pub fn render_topology_helpers(pkg_ns: &str, pkg_name: &str) -> (r: String)
    ensures
        r@ == text::fill(t::TOPOLOGY_HELPERS@, seq![("pkg_ns"@, pkg_ns@), ("pkg_name"@, pkg_name@)]),
{
    fill2(t::TOPOLOGY_HELPERS, "pkg_ns", pkg_ns, "pkg_name", pkg_name)
}

/// The decoders of the resources that the primary package declares.
pub open spec fn resource_helpers(pkgs: Seq<WitPackage>, primary: Seq<char>) -> Seq<char> {
    (if packages::primary_has(pkgs, primary, "geometry"@, "postgis-error"@) {
        t::POSTGIS_HELPERS@
    } else {
        Seq::empty()
    }) + gather::where_resource(pkgs, primary, "raster"@, "raster-error"@, t::RASTER_HELPERS@)
        + gather::where_resource(pkgs, primary, "topology"@, "topology-error"@, t::TOPOLOGY_HELPERS@)
}

fn render_resource_helpers(pkgs: &Vec<WitPackage>, primary: &str) -> (r: String)
    ensures
        r@ == resource_helpers(pkgs@, primary@),
{
    let mut s = if packages::has_resource(pkgs, primary, "geometry", "postgis-error") {
        t::POSTGIS_HELPERS.to_owned()
    } else {
        String::new()
    };
    if packages::has_resource(pkgs, primary, "raster", "raster-error") {
        let k = packages::find_primary(pkgs, primary);
        let (ns, name) = packages::package_modules(pkgs[k].ns_name.as_str());
        let raster = render_raster_helpers(ns.as_str(), name.as_str());
        s.append(raster.as_str());
    } else {
        assert(s@ + Seq::<char>::empty() =~= s@);
    }
    if packages::has_resource(pkgs, primary, "topology", "topology-error") {
        let k = packages::find_primary(pkgs, primary);
        let (ns, name) = packages::package_modules(pkgs[k].ns_name.as_str());
        let topology = render_topology_helpers(ns.as_str(), name.as_str());
        s.append(topology.as_str());
    } else {
        assert(s@ + Seq::<char>::empty() =~= s@);
    }
    s
}

/// The imports of the resources that the primary package declares.
pub open spec fn resource_uses(pkgs: Seq<WitPackage>, primary: Seq<char>) -> Seq<char> {
    gather::where_resource(pkgs, primary, "geometry"@, "postgis-error"@, t::USE_GEOMETRY@)
        + gather::where_resource(pkgs, primary, "raster"@, "raster-error"@, t::USE_RASTER@)
        + gather::where_resource(pkgs, primary, "topology"@, "topology-error"@, t::USE_TOPOLOGY@)
}

fn render_resource_uses(pkgs: &Vec<WitPackage>, primary: &str) -> (r: String)
    ensures
        r@ == resource_uses(pkgs@, primary@),
{
    let mut s = gather::render_where_resource(
        pkgs,
        primary,
        "geometry",
        "postgis-error",
        t::USE_GEOMETRY,
    );
    let raster = gather::render_where_resource(
        pkgs,
        primary,
        "raster",
        "raster-error",
        t::USE_RASTER,
    );
    s.append(raster.as_str());
    let topology = gather::render_where_resource(
        pkgs,
        primary,
        "topology",
        "topology-error",
        t::USE_TOPOLOGY,
    );
    s.append(topology.as_str());
    s
}

/// Whether an aggregate accumulates records.
pub open spec fn accumulates_records(acc: AccKind) -> bool {
    acc is Record || acc is RecordToScalar || acc is RecordToTuple
}

/// Whether some aggregate accumulates records.
pub open spec fn has_record_aggregate(entries: Seq<AggregateEntry>) -> bool {
    exists|k: int|
        0 <= k < entries.len() && accumulates_records((#[trigger] entries[k]).shape.accumulator_kind)
}

fn find_record_aggregate(entries: &Vec<AggregateEntry>) -> (r: bool)
    ensures
        r == has_record_aggregate(entries@),
{
    let mut k: usize = 0;
    while k < entries.len()
        invariant
            k <= entries@.len(),
            forall|j: int|
                0 <= j < k ==> !accumulates_records(
                    (#[trigger] entries@[j]).shape.accumulator_kind,
                ),
        decreases entries.len() - k,
    {
        let found = match &entries[k].shape.accumulator_kind {
            AccKind::Record { input: _, output: _ } => true,
            AccKind::RecordToScalar { input: _, output: _, optional: _ } => true,
            AccKind::RecordToTuple { input: _, optional: _ } => true,
            _ => false,
        };
        if found {
            assert(accumulates_records(entries@[k as int].shape.accumulator_kind));
            return true;
        }
        k = k + 1;
    }
    false
}

/// `s` where a condition holds, and nothing where it does not.
pub open spec fn only_if(holds: bool, s: Seq<char>) -> Seq<char> {
    if holds {
        s
    } else {
        ""@
    }
}

fn pick_if<'a>(holds: bool, s: &'a str) -> (r: &'a str)
    ensures
        r@ == only_if(holds, s@),
{
    if holds {
        s
    } else {
        ""
    }
}

/// The part of the source between the imports and the implementations: helpers that read
/// arguments, and the state of aggregates, window functions and tables.
pub open spec fn body(
    plan: BridgePlan,
    crate_name: Seq<char>,
    bridge_struct: Seq<char>,
    inputs: BridgeInputs,
) -> Seq<char> {
    let records = has_record_aggregate(inputs.aggregate_entries@);
    let windows = inputs.window_entries@.len() > 0;
    text::fill(
        t::BODY@,
        seq![
            ("crate_name"@, crate_name),
            ("bridge_struct"@, bridge_struct),
            (
                "POSTGIS_HELPERS"@,
                resource_helpers(inputs.shim_packages@, ir::primary_name(plan)),
            ),
            (
                "TUPLE_LIST_HELPERS"@,
                gather::tuple_helpers_block(
                    t::TUPLE_HELPERS_HEADER@,
                    t::TUPLE_HELPER@,
                    tuple_signatures(
                        inputs.scalar_entries@,
                        inputs.aggregate_entries@,
                        inputs.udtf_entries@,
                    ),
                ),
            ),
            ("FORCE_LINK_BLOCK"@, inputs.force_link_block@),
            ("WITVALUE_AGG_STATE_DECL"@, only_if(records, t::WIT_VALUE_STATE@)),
            ("WITVALUE_AGG_STATE_HELPERS"@, only_if(records, t::WIT_VALUE_STATE_HELPERS@)),
            ("WINDOW_STATE_DECL"@, only_if(windows, t::WINDOW_STATE@)),
            ("WINDOW_STATE_HELPERS"@, only_if(windows, t::WINDOW_HELPERS@)),
            (
                "WINDOW_COMPUTE_HELPERS"@,
                emit_window::compute_helpers(
                    inputs.window_entries@,
                    listing::windows_of(plan, inputs.window_entries@),
                ),
            ),
        ],
    )
}

fn render_body(
    plan: &BridgePlan,
    crate_name: &str,
    bridge_struct: &str,
    inputs: &BridgeInputs,
    windows: &Vec<Listed>,
) -> (r: String)
    requires
        listing::entries_fit(inputs.window_entries@),
        listing::listed(windows@) == listing::windows_of(*plan, inputs.window_entries@),
        listing::ids_fit(listing::listed(windows@), listing::WINDOW_BASE as nat),
    ensures
        r@ == body(*plan, crate_name@, bridge_struct@, *inputs),
{
    let primary = ir::primary_extension_name(plan);
    let helpers = render_resource_helpers(&inputs.shim_packages, primary);
    let sigs = collect_tuple_list_sigs(
        &inputs.scalar_entries,
        &inputs.aggregate_entries,
        &inputs.udtf_entries,
    );
    let tuples = render_tuple_list_helpers(&sigs);
    let with_records = find_record_aggregate(&inputs.aggregate_entries);
    let with_windows = inputs.window_entries.len() > 0;
    let computes = emit_window::emit_window_compute_helpers(&inputs.window_entries, windows);
    let record_state = pick_if(with_records, t::WIT_VALUE_STATE);
    let record_helpers = pick_if(with_records, t::WIT_VALUE_STATE_HELPERS);
    let window_state = pick_if(with_windows, t::WINDOW_STATE);
    let window_helpers = pick_if(with_windows, t::WINDOW_HELPERS);
    let holes: Vec<(&str, &str)> = vec![
        ("crate_name", crate_name),
        ("bridge_struct", bridge_struct),
        ("POSTGIS_HELPERS", helpers.as_str()),
        ("TUPLE_LIST_HELPERS", tuples.as_str()),
        ("FORCE_LINK_BLOCK", inputs.force_link_block.as_str()),
        ("WITVALUE_AGG_STATE_DECL", record_state),
        ("WITVALUE_AGG_STATE_HELPERS", record_helpers),
        ("WINDOW_STATE_DECL", window_state),
        ("WINDOW_STATE_HELPERS", window_helpers),
        ("WINDOW_COMPUTE_HELPERS", computes.as_str()),
    ];
    assert(text::bindings(holes@) =~= seq![
        ("crate_name"@, crate_name@),
        ("bridge_struct"@, bridge_struct@),
        ("POSTGIS_HELPERS"@, helpers@),
        ("TUPLE_LIST_HELPERS"@, tuples@),
        ("FORCE_LINK_BLOCK"@, inputs.force_link_block@),
        ("WITVALUE_AGG_STATE_DECL"@, record_state@),
        ("WITVALUE_AGG_STATE_HELPERS"@, record_helpers@),
        ("WINDOW_STATE_DECL"@, window_state@),
        ("WINDOW_STATE_HELPERS"@, window_helpers@),
        ("WINDOW_COMPUTE_HELPERS"@, computes@),
    ]);
    text::fill_with(t::BODY, &holes)
}

// ─── The source ───

/// The name of the type that implements the interfaces of a bridge.
pub open spec fn bridge_name(plan: BridgePlan) -> Seq<char> {
    words::pascal(ir::primary_name(plan), true) + "Bridge"@
}

/// The imports at the head of the source.
pub open spec fn source_head(plan: BridgePlan, inputs: BridgeInputs) -> Seq<char> {
    let primary = ir::primary_name(plan);
    let ignored = derives::ignored(inputs.contract_package, inputs.shim_packages@, primary);
    t::HEADER@ + text::fill(
        t::PRELUDE@,
        seq![
            ("primary"@, primary),
            ("derives_ignore_lits"@, gather::list_lines(ignored, ignored.len())),
        ],
    ) + gather::uses(used_modules(inputs), packages::pairs(inputs.module_idents@)) + resource_uses(
        inputs.shim_packages@,
        primary,
    ) + "\n"@
}

fn render_source_head(plan: &BridgePlan, inputs: &BridgeInputs) -> (r: String)
    ensures
        r@ == source_head(*plan, *inputs),
{
    let primary = ir::primary_extension_name(plan);
    let ignored = derives::list_ignored(&inputs.contract_package, &inputs.shim_packages, primary);
    let lines = gather::render_list_lines(&ignored);
    let mut s = t::HEADER.to_owned();
    let prelude = fill2(
        t::PRELUDE,
        "primary",
        primary,
        "derives_ignore_lits",
        lines.as_str(),
    );
    s.append(prelude.as_str());
    let modules = render_module_uses(inputs);
    s.append(modules.as_str());
    let resources = render_resource_uses(&inputs.shim_packages, primary);
    s.append(resources.as_str());
    s.append("\n");
    assert(text::strs(ignored@).len() == ignored@.len());
    s
}

/// The implementations of the interfaces of a bridge.
pub open spec fn source_impls(
    plan: BridgePlan,
    records: Seq<RecordType>,
    inputs: BridgeInputs,
) -> Seq<char> {
    let primary = ir::primary_name(plan);
    let bridge = bridge_name(plan);
    metadata_impl(plan, bridge, records, inputs.window_entries@)
        + emit_records::wit_value_helpers(
        primary,
        bridge,
        records,
        referenced_records(
            inputs.scalar_entries@,
            inputs.aggregate_entries@,
            inputs.udtf_entries@,
        ),
    ) + scalar_impl(bridge, inputs.scalar_entries@, listing::scalars_of(plan)) + aggregate_impl(
        bridge,
        inputs.aggregate_entries@,
        listing::aggregates_of(plan),
        inputs.window_entries@,
        listing::windows_of(plan, inputs.window_entries@),
    ) + emit_vtab::vtab_impl(bridge, inputs.udtf_entries@, listing::tables_of(plan)) + (
    if records.len() > 0 {
        emit_records::serde_ops_impl(primary, bridge, records)
    } else {
        Seq::empty()
    }) + text::fill(t::EXPORT@, seq![("bridge_struct"@, bridge)])
}

/// The source of a bridge crate.
pub open spec fn lib_source(
    plan: BridgePlan,
    crate_name: Seq<char>,
    records: Seq<RecordType>,
    inputs: BridgeInputs,
) -> Seq<char> {
    source_head(plan, inputs) + body(plan, crate_name, bridge_name(plan), inputs) + source_impls(
        plan,
        records,
        inputs,
    )
}

fn render_source_impls(
    plan: &BridgePlan,
    bridge: &str,
    records: &Vec<RecordType>,
    inputs: &BridgeInputs,
    windows: &Vec<Listed>,
) -> (r: String)
    requires
        inputs_wired(*inputs),
        plan_fits(*plan, inputs.window_entries@),
        bridge@ == bridge_name(*plan),
        listing::listed(windows@) == listing::windows_of(*plan, inputs.window_entries@),
    ensures
        r@ == source_impls(*plan, records@, *inputs),
{
    let primary = ir::primary_extension_name(plan);
    let scalars = listing::build_scalar_id_index(plan);
    let aggregates = listing::build_aggregate_id_index(plan);
    let tables = listing::build_udtf_id_index(plan);
    let mut s = emit_metadata_impl(plan, bridge, records, &inputs.window_entries);
    let referenced = collect_referenced_records(
        &inputs.scalar_entries,
        &inputs.aggregate_entries,
        &inputs.udtf_entries,
    );
    let helpers = emit_records::emit_wit_value_helpers(
        primary,
        bridge,
        records,
        &referenced,
    );
    s.append(helpers.as_str());
    let scalar = emit_scalar_impl(bridge, &inputs.scalar_entries, &scalars);
    s.append(scalar.as_str());
    let aggregate = emit_aggregate_impl(
        bridge,
        &inputs.aggregate_entries,
        &aggregates,
        &inputs.window_entries,
        windows,
    );
    s.append(aggregate.as_str());
    let vtab = emit_vtab::emit_vtab_impl(bridge, &inputs.udtf_entries, &tables);
    s.append(vtab.as_str());
    let serde = if records.len() > 0 {
        emit_records::emit_serde_ops_impl(primary, bridge, records)
    } else {
        String::new()
    };
    s.append(serde.as_str());
    let export = fill1(t::EXPORT, "bridge_struct", bridge);
    s.append(export.as_str());
    s
}

/// Writes the source of a bridge crate.
pub fn lib_rs(
    plan: &BridgePlan,
    crate_name: &str,
    records: &Vec<RecordType>,
    inputs: &BridgeInputs,
) -> (r: String)
    requires
        inputs_wired(*inputs),
        plan_fits(*plan, inputs.window_entries@),
    ensures
        r@ == lib_source(*plan, crate_name@, records@, *inputs),
{
    let pascal = pascal_case(ir::primary_extension_name(plan));
    let bridge = cat(pascal.as_str(), "Bridge");
    let windows = listing::build_window_id_index(plan, &inputs.window_entries);
    let mut s = render_source_head(plan, inputs);
    let middle = render_body(plan, crate_name, bridge.as_str(), inputs, &windows);
    s.append(middle.as_str());
    let impls = render_source_impls(plan, bridge.as_str(), records, inputs, &windows);
    s.append(impls.as_str());
    s
}

} // verus!
