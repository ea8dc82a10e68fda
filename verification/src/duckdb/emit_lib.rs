//! The source of a bridge crate.

use vstd::prelude::*;
use vstd::string::*;

use crate::derives;
use crate::duckdb::dispatch;
use crate::duckdb::handle_table::{self, Family};
use crate::duckdb::lib_templates as t;
use crate::duckdb::lifecycle;
use crate::duckdb::register;
use crate::duckdb::register::UnwiredCast;
use crate::duckdb::register_templates;
use crate::gather;
use crate::ir::{
    self, AccKind, AggregateEntry, BridgePlan, DispatchEntry, ListTupleElem, ParamShape,
    RecordType, RetShape, UdtfEntry, WindowEntry, WitPackage,
};
use crate::order;
use crate::packages;
use crate::text::{self, fill1, fill2, fill3};
use crate::tuples;
use crate::words::{self, decimal_usize, escape_quotes, is_fresh, join, pascal_case, to_snake};

verus! {

/// What the source of a bridge is written from, beside the plan.
pub struct BridgeInputs {
    pub shim_packages: Vec<WitPackage>,
    pub duckdb_package: WitPackage,
    pub records: Vec<RecordType>,
    /// The module that each module alias stands for.
    pub module_idents: Vec<(String, String)>,
    pub scalar_entries: Vec<(DispatchEntry, bool)>,
    pub aggregate_entries: Vec<AggregateEntry>,
    pub udtf_entries: Vec<UdtfEntry>,
    pub window_entries: Vec<WindowEntry>,
}

/// Whether arms can be written for all scalars.
pub open spec fn scalars_wired(entries: Seq<(DispatchEntry, bool)>) -> bool {
    forall|k: int| 0 <= k < entries.len() ==> dispatch::scalar_wired((#[trigger] entries[k]).0.shape)
}

/// Whether arms can be written for all aggregates.
pub open spec fn aggregates_wired(entries: Seq<AggregateEntry>) -> bool {
    forall|k: int|
        0 <= k < entries.len() ==> dispatch::aggregate_wired((#[trigger] entries[k]).shape)
}

/// Whether arms can be written for all table functions.
pub open spec fn tables_wired(entries: Seq<UdtfEntry>) -> bool {
    forall|k: int|
        0 <= k < entries.len() ==> dispatch::params_wired((#[trigger] entries[k]).shape.params@)
}

// ─── Dispatch arms ───

/// The indentation of arm bodies.
pub const ARM_INDENT: &'static str = "                ";

/// One arm of a dispatch.
pub open spec fn arm(arm_idx: nat, body: Seq<char>) -> Seq<char> {
    text::fill(t::ARM@, seq![("arm_idx"@, words::decimal(arm_idx)), ("body"@, body)])
}

fn render_arm(arm_idx: usize, body: &str) -> (r: String)
    ensures
        r@ == arm(arm_idx as nat, body@),
{
    let number = decimal_usize(arm_idx);
    fill2(t::ARM, "arm_idx", number.as_str(), "body", body)
}

/// The arms of the first `n` scalars, one for each name, written from the first scalar that
/// bears it.
pub open spec fn scalar_arms(entries: Seq<(DispatchEntry, bool)>, n: nat) -> Seq<char>
    decreases n,
{
    if n == 0 {
        Seq::empty()
    } else {
        let names = ir::scalar_names(entries);
        let before = scalar_arms(entries, (n - 1) as nat);
        let e = entries[n - 1];
        if words::fresh(names, n - 1) {
            before + arm(
                words::count_fresh(names, (n - 1) as nat),
                dispatch::scalar_arm_body(e.0.shape, e.1, e.0.sql_name@, ARM_INDENT@),
            )
        } else {
            before
        }
    }
}

/// Writes the arms of all scalars and counts them.
pub fn build_scalar_arms(entries: &Vec<(DispatchEntry, bool)>) -> (r: (String, usize))
    requires
        scalars_wired(entries@),
    ensures
        r.0@ == scalar_arms(entries@, entries@.len()),
        r.1 == words::count_fresh(ir::scalar_names(entries@), entries@.len()),
{
    let names = ir::list_scalar_names(entries);
    let ghost seen = ir::scalar_names(entries@);
    let mut out = String::new();
    let mut arm_idx: usize = 0;
    let mut k: usize = 0;
    while k < entries.len()
        invariant
            k <= entries@.len(),
            arm_idx <= k,
            scalars_wired(entries@),
            names@.len() == entries@.len(),
            text::strs(names@) == seen,
            seen == ir::scalar_names(entries@),
            arm_idx == words::count_fresh(seen, k as nat),
            out@ == scalar_arms(entries@, k as nat),
        decreases entries.len() - k,
    {
        if is_fresh(&names, k) {
            let e = &entries[k];
            let body = dispatch::emit_scalar_arm_body(
                &e.0.shape,
                e.1,
                e.0.sql_name.as_str(),
                ARM_INDENT,
            );
            let one = render_arm(arm_idx, body.as_str());
            out.append(one.as_str());
            arm_idx = arm_idx + 1;
        }
        k = k + 1;
    }
    (out, arm_idx)
}

/// The arms of the first `n` names of aggregates, one for each name.
pub open spec fn aggregate_arms(entries: Seq<AggregateEntry>, n: nat) -> Seq<char>
    decreases n,
{
    if n == 0 {
        Seq::empty()
    } else {
        let all = ir::aggregate_names(entries);
        let names = ir::firsts(all);
        let before = aggregate_arms(entries, (n - 1) as nat);
        if words::fresh(names, n - 1) {
            before + arm(
                words::count_fresh(names, (n - 1) as nat),
                dispatch::aggregate_arm_body(
                    entries[all[n - 1].1].shape,
                    all[n - 1].0,
                    ARM_INDENT@,
                ),
            )
        } else {
            before
        }
    }
}

/// Writes the arms of all aggregates, one for each name and alias, and counts them.
pub fn build_aggregate_arms(entries: &Vec<AggregateEntry>) -> (r: (String, usize))
    requires
        aggregates_wired(entries@),
    ensures
        r.0@ == aggregate_arms(entries@, ir::aggregate_names(entries@).len()),
        r.1 == words::count_fresh(
            ir::firsts(ir::aggregate_names(entries@)),
            ir::aggregate_names(entries@).len(),
        ),
{
    let (names, at) = ir::list_aggregate_names(entries);
    let ghost all = ir::aggregate_names(entries@);
    let ghost seen = ir::firsts(all);
    let mut out = String::new();
    let mut arm_idx: usize = 0;
    let mut k: usize = 0;
    while k < names.len()
        invariant
            k <= names@.len(),
            arm_idx <= k,
            aggregates_wired(entries@),
            names@.len() == at@.len(),
            all == ir::aggregate_names(entries@),
            seen == ir::firsts(all),
            ir::named_positions(names@, at@) == all,
            text::strs(names@) == seen,
            forall|j: int| 0 <= j < at@.len() ==> #[trigger] at@[j] < entries@.len(),
            arm_idx == words::count_fresh(seen, k as nat),
            out@ == aggregate_arms(entries@, k as nat),
        decreases names.len() - k,
    {
        assert(all[k as int] == (names@[k as int]@, at@[k as int] as int));
        if is_fresh(&names, k) {
            let body = dispatch::emit_aggregate_arm_body(
                &entries[at[k]].shape,
                names[k].as_str(),
                ARM_INDENT,
            );
            let one = render_arm(arm_idx, body.as_str());
            out.append(one.as_str());
            arm_idx = arm_idx + 1;
        }
        k = k + 1;
    }
    assert(all.len() == names@.len());
    (out, arm_idx)
}

/// The arms of the first `n` table functions, one for each name.
pub open spec fn table_arms(entries: Seq<UdtfEntry>, n: nat) -> Seq<char>
    decreases n,
{
    if n == 0 {
        Seq::empty()
    } else {
        let names = ir::udtf_names(entries);
        let before = table_arms(entries, (n - 1) as nat);
        let e = entries[n - 1];
        if words::fresh(names, n - 1) {
            before + arm(
                words::count_fresh(names, (n - 1) as nat),
                dispatch::udtf_call_body(e.shape, e.sql_name@, ARM_INDENT@),
            )
        } else {
            before
        }
    }
}

/// Writes the arms of all table functions and counts them.
pub fn build_table_arms(entries: &Vec<UdtfEntry>) -> (r: (String, usize))
    requires
        tables_wired(entries@),
    ensures
        r.0@ == table_arms(entries@, entries@.len()),
        r.1 == words::count_fresh(ir::udtf_names(entries@), entries@.len()),
{
    let names = ir::list_udtf_names(entries);
    let ghost seen = ir::udtf_names(entries@);
    let mut out = String::new();
    let mut arm_idx: usize = 0;
    let mut k: usize = 0;
    while k < entries.len()
        invariant
            k <= entries@.len(),
            arm_idx <= k,
            tables_wired(entries@),
            names@.len() == entries@.len(),
            text::strs(names@) == seen,
            seen == ir::udtf_names(entries@),
            arm_idx == words::count_fresh(seen, k as nat),
            out@ == table_arms(entries@, k as nat),
        decreases entries.len() - k,
    {
        if is_fresh(&names, k) {
            let e = &entries[k];
            let body = dispatch::emit_udtf_call_body(&e.shape, e.sql_name.as_str(), ARM_INDENT);
            let one = render_arm(arm_idx, body.as_str());
            out.append(one.as_str());
            arm_idx = arm_idx + 1;
        }
        k = k + 1;
    }
    (out, arm_idx)
}

/// The arms of the first `n` window functions, one for each name.
pub open spec fn window_arms(entries: Seq<WindowEntry>, n: nat) -> Seq<char>
    decreases n,
{
    if n == 0 {
        Seq::empty()
    } else {
        let names = ir::window_names(entries);
        let before = window_arms(entries, (n - 1) as nat);
        let e = entries[n - 1];
        if words::fresh(names, n - 1) {
            before + arm(
                words::count_fresh(names, (n - 1) as nat),
                dispatch::window_arm_body(e.shape, e.sql_name@, ARM_INDENT@),
            )
        } else {
            before
        }
    }
}

/// Writes the arms of all window functions and counts them.
pub fn build_window_arms(entries: &Vec<WindowEntry>) -> (r: (String, usize))
    ensures
        r.0@ == window_arms(entries@, entries@.len()),
        r.1 == words::count_fresh(ir::window_names(entries@), entries@.len()),
{
    let names = ir::list_window_names(entries);
    let ghost seen = ir::window_names(entries@);
    let mut out = String::new();
    let mut arm_idx: usize = 0;
    let mut k: usize = 0;
    while k < entries.len()
        invariant
            k <= entries@.len(),
            arm_idx <= k,
            names@.len() == entries@.len(),
            text::strs(names@) == seen,
            seen == ir::window_names(entries@),
            arm_idx == words::count_fresh(seen, k as nat),
            out@ == window_arms(entries@, k as nat),
        decreases entries.len() - k,
    {
        if is_fresh(&names, k) {
            let e = &entries[k];
            let body = dispatch::emit_window_arm_body(&e.shape, e.sql_name.as_str(), ARM_INDENT);
            let one = render_arm(arm_idx, body.as_str());
            out.append(one.as_str());
            arm_idx = arm_idx + 1;
        }
        k = k + 1;
    }
    (out, arm_idx)
}

/// The dispatch of pragmas, of which there are none: an error that names the shim.
pub fn build_pragma_dispatch_impl(primary: &str) -> (r: String)
    ensures
        r@ == text::fill(t::PRAGMA@, seq![("primary"@, primary@)]),
{
    fill1(t::PRAGMA, "primary", primary)
}

/// The holes of the texts about the dispatch of window functions. Where there are none, the
/// parameters that no arm reads are marked unused.
pub open spec fn window_holes(
    primary: Seq<char>,
    bridge_struct: Seq<char>,
    entries: Seq<WindowEntry>,
) -> Seq<text::Binding> {
    let none = words::count_fresh(ir::window_names(entries), entries.len()) == 0;
    seq![
        ("bridge_struct"@, bridge_struct),
        ("primary"@, primary),
        (
            "partition_bind"@,
            if none {
                "_partition"@
            } else {
                "partition"@
            },
        ),
        (
            "frame_bind"@,
            if none {
                "_frame"@
            } else {
                "frame"@
            },
        ),
        ("window_arms"@, window_arms(entries, entries.len())),
    ]
}

/// The dispatch of window functions, whose arms are looked up in a table of their own.
pub open spec fn window_dispatch(
    primary: Seq<char>,
    bridge_struct: Seq<char>,
    entries: Seq<WindowEntry>,
) -> Seq<char> {
    text::fill(t::WINDOW_DISPATCH_START@, window_holes(primary, bridge_struct, entries))
        + handle_table::lookup(Family::Window) + text::fill(
        t::WINDOW_DISPATCH@,
        window_holes(primary, bridge_struct, entries),
    )
}

/// Writes the dispatch of window functions.
pub fn build_window_dispatch_impl(
    primary: &str,
    bridge_struct: &str,
    window_entries: &Vec<WindowEntry>,
) -> (r: String)
    ensures
        r@ == window_dispatch(primary@, bridge_struct@, window_entries@),
{
    let (arms, count) = build_window_arms(window_entries);
    let partition = if count == 0 {
        "_partition"
    } else {
        "partition"
    };
    let frame = if count == 0 {
        "_frame"
    } else {
        "frame"
    };
    let mut b: Vec<(&str, &str)> = Vec::new();
    b.push(("bridge_struct", bridge_struct));
    b.push(("primary", primary));
    b.push(("partition_bind", partition));
    b.push(("frame_bind", frame));
    b.push(("window_arms", arms.as_str()));
    assert(text::bindings(b@) =~= window_holes(primary@, bridge_struct@, window_entries@));
    let head = text::fill_with(t::WINDOW_DISPATCH_START, &b);
    let rest = text::fill_with(t::WINDOW_DISPATCH, &b);
    text::cat3(head.as_str(), handle_table::pick_lookup(Family::Window), rest.as_str())
}

// ─── Module aliases ───

/// All modules that arms call into, each with its package.
pub open spec fn used_modules(inputs: BridgeInputs) -> Seq<text::Binding> {
    gather::modules_of(
        inputs.scalar_entries@,
        inputs.aggregate_entries@,
        inputs.udtf_entries@,
        inputs.window_entries@,
    )
}

/// The imports of all modules that are used, in the order of their aliases.
pub open spec fn module_uses(inputs: BridgeInputs) -> Seq<char> {
    gather::uses(used_modules(inputs), packages::pairs(inputs.module_idents@))
}

fn render_module_uses(inputs: &BridgeInputs) -> (r: String)
    ensures
        r@ == module_uses(*inputs),
{
    let modules = gather::list_modules(
        &inputs.scalar_entries,
        &inputs.aggregate_entries,
        &inputs.udtf_entries,
        &inputs.window_entries,
    );
    gather::render_uses(&modules, &inputs.module_idents)
}

// ─── Resources ───

/// The decoders of rasters.
pub fn render_raster_helpers(pkg_ns: &str, pkg_name: &str) -> (r: String)
    ensures
        r@ == text::fill(t::RASTER_HELPERS@, seq![("pkg_ns"@, pkg_ns@), ("pkg_name"@, pkg_name@)]),
{
    fill2(t::RASTER_HELPERS, "pkg_ns", pkg_ns, "pkg_name", pkg_name)
}

/// The decoders of topologies.
pub fn render_topology_helpers(pkg_ns: &str, pkg_name: &str) -> (r: String)
    ensures
        r@ == text::fill(t::TOPOLOGY_HELPERS@, seq![("pkg_ns"@, pkg_ns@), ("pkg_name"@, pkg_name@)]),
{
    fill2(t::TOPOLOGY_HELPERS, "pkg_ns", pkg_ns, "pkg_name", pkg_name)
}

// ─── Lists of tuples ───

/// Collects the different signatures of lists of tuples that scalars take, in order.
pub fn collect_tuple_list_sigs(entries: &Vec<(DispatchEntry, bool)>) -> (r: Vec<String>)
    ensures
        text::strs(r@) == order::sorted_set(gather::scalar_signatures(entries@, entries@.len())),
{
    let mut all: Vec<String> = Vec::new();
    assert(text::strs(all@) =~= Seq::<Seq<char>>::empty());
    let mut k: usize = 0;
    while k < entries.len()
        invariant
            k <= entries@.len(),
            text::strs(all@) == gather::scalar_signatures(entries@, k as nat),
        decreases entries.len() - k,
    {
        gather::push_signatures(&mut all, &entries[k].0.shape.params);
        k = k + 1;
    }
    order::sorted(&all)
}

/// Writes the helpers that read lists of tuples, one for each signature.
pub fn render_tuple_list_helpers(sigs: &Vec<String>) -> (r: String)
    ensures
        r@ == gather::tuple_helpers_block(
            t::TUPLE_HELPERS_HEADER@,
            t::TUPLE_HELPER@,
            text::strs(sigs@),
        ),
{
    gather::render_tuple_helpers(t::TUPLE_HELPERS_HEADER, t::TUPLE_HELPER, sigs)
}

/// The suffix of an element of a tuple that may hold records.
pub open spec fn mixed_suffix(e: ListTupleElem) -> Seq<char> {
    match e {
        ListTupleElem::Prim(p) => p.suffix(),
        ListTupleElem::Record(r) => words::snake(r.kebab_name@),
    }
}

/// The suffix of the helper that reads lists of such tuples.
pub open spec fn mixed_tuple_suffix(elements: Seq<ListTupleElem>) -> Seq<char> {
    words::joined(elements.map_values(|e: ListTupleElem| mixed_suffix(e)), "_"@)
}

/// The Rust type of an element of a tuple that may hold records.
pub open spec fn mixed_type(e: ListTupleElem) -> Seq<char> {
    match e {
        ListTupleElem::Prim(p) => p.rust_type(),
        ListTupleElem::Record(r) => gather::upstream_path(r.wit_package@, r.wit_interface@, r.kebab_name@),
    }
}

/// The WIT type of an element of a tuple that may hold records.
pub open spec fn mixed_label(e: ListTupleElem) -> Seq<char> {
    match e {
        ListTupleElem::Prim(p) => p.wit_type(),
        ListTupleElem::Record(r) => r.kebab_name@,
    }
}

/// Writes the suffix of the helper that reads lists of such tuples.
pub fn list_tuple_mixed_sig_suffix(elements: &Vec<ListTupleElem>) -> (r: String)
    ensures
        r@ == mixed_tuple_suffix(elements@),
{
    let mut parts: Vec<String> = Vec::new();
    let mut k: usize = 0;
    while k < elements.len()
        invariant
            k <= elements@.len(),
            parts@.len() == k,
            forall|j: int| 0 <= j < k ==> #[trigger] parts@[j]@ == mixed_suffix(elements@[j]),
        decreases elements.len() - k,
    {
        match &elements[k] {
            ListTupleElem::Prim(p) => parts.push(p.helper_suffix().to_owned()),
            ListTupleElem::Record(r) => parts.push(to_snake(r.kebab_name.as_str())),
        }
        k = k + 1;
    }
    assert(text::strs(parts@) =~= elements@.map_values(|e: ListTupleElem| mixed_suffix(e)));
    join(&parts, "_")
}

fn render_mixed_helper(elements: &Vec<ListTupleElem>) -> (r: String)
    ensures
        r@ == gather::tuple_helper(
            t::TUPLE_HELPER@,
            mixed_tuple_suffix(elements@),
            elements@.map_values(|e: ListTupleElem| mixed_type(e)),
            elements@.map_values(|e: ListTupleElem| mixed_label(e)),
        ),
{
    let mut types: Vec<String> = Vec::new();
    let mut labels: Vec<String> = Vec::new();
    let mut k: usize = 0;
    while k < elements.len()
        invariant
            k <= elements@.len(),
            types@.len() == k,
            labels@.len() == k,
            forall|j: int| 0 <= j < k ==> #[trigger] types@[j]@ == mixed_type(elements@[j]),
            forall|j: int| 0 <= j < k ==> #[trigger] labels@[j]@ == mixed_label(elements@[j]),
        decreases elements.len() - k,
    {
        match &elements[k] {
            ListTupleElem::Prim(p) => {
                types.push(p.rust_elem().to_owned());
                labels.push(p.wit_label().to_owned());
            },
            ListTupleElem::Record(r) => {
                types.push(
                    gather::render_upstream_path(
                        r.wit_package.as_str(),
                        r.wit_interface.as_str(),
                        r.kebab_name.as_str(),
                    ),
                );
                labels.push(r.kebab_name.clone());
            },
        }
        k = k + 1;
    }
    proof {
        assert(text::strs(types@) =~= elements@.map_values(|e: ListTupleElem| mixed_type(e)));
        assert(text::strs(labels@) =~= elements@.map_values(|e: ListTupleElem| mixed_label(e)));
    }
    let suffix = list_tuple_mixed_sig_suffix(elements);
    let rust_tuple = tuples::render_tuple_type(&types);
    let wit_label = join(&labels, ", ");
    fill3(
        t::TUPLE_HELPER,
        "suffix",
        suffix.as_str(),
        "rust_tuple",
        rust_tuple.as_str(),
        "wit_label",
        wit_label.as_str(),
    )
}

/// `base` followed by the positions of the lists of tuples that may hold records among the
/// first `n` parameters of scalar `k`.
pub open spec fn with_mixed(base: Seq<(int, int)>, params: Seq<ParamShape>, k: int, n: nat) -> Seq<
    (int, int),
>
    decreases n,
{
    if n == 0 {
        base
    } else {
        let before = with_mixed(base, params, k, (n - 1) as nat);
        if params[n - 1] is ListTupleMixed {
            before.push((k, n - 1))
        } else {
            before
        }
    }
}

/// The positions, by scalar and parameter, of the lists of tuples that may hold records among
/// the parameters of the first `n` scalars.
pub open spec fn mixed_params(entries: Seq<(DispatchEntry, bool)>, n: nat) -> Seq<(int, int)>
    decreases n,
{
    if n == 0 {
        Seq::empty()
    } else {
        let params = entries[n - 1].0.shape.params@;
        with_mixed(mixed_params(entries, (n - 1) as nat), params, n - 1, params.len())
    }
}

/// Whether there is a list of tuples that may hold records at a position.
pub open spec fn mixed_at(entries: Seq<(DispatchEntry, bool)>, p: (int, int)) -> bool {
    0 <= p.0 < entries.len() && 0 <= p.1 < entries[p.0].0.shape.params@.len()
        && entries[p.0].0.shape.params@[p.1] is ListTupleMixed
}

/// The elements of the tuples at a position.
pub open spec fn mixed_elements(entries: Seq<(DispatchEntry, bool)>, p: (int, int)) -> Seq<
    ListTupleElem,
> {
    entries[p.0].0.shape.params@[p.1]->ListTupleMixed_elements@
}

/// The suffixes of the helpers for the tuples at some positions.
pub open spec fn mixed_suffixes(entries: Seq<(DispatchEntry, bool)>, ps: Seq<(int, int)>) -> Seq<
    Seq<char>,
> {
    ps.map_values(|p: (int, int)| mixed_tuple_suffix(mixed_elements(entries, p)))
}

/// The positions that a vector of pairs of numbers holds.
pub open spec fn positions(v: Seq<(usize, usize)>) -> Seq<(int, int)> {
    v.map_values(|p: (usize, usize)| (p.0 as int, p.1 as int))
}

/// Collects the positions of the lists of tuples that may hold records.
pub fn collect_tuple_list_mixed_sigs(entries: &Vec<(DispatchEntry, bool)>) -> (r: Vec<
    (usize, usize),
>)
    ensures
        positions(r@) == mixed_params(entries@, entries@.len()),
        forall|j: int| 0 <= j < r@.len() ==> mixed_at(entries@, #[trigger] positions(r@)[j]),
{
    let mut r: Vec<(usize, usize)> = Vec::new();
    assert(positions(r@) =~= Seq::<(int, int)>::empty());
    let mut k: usize = 0;
    while k < entries.len()
        invariant
            k <= entries@.len(),
            positions(r@) == mixed_params(entries@, k as nat),
            forall|j: int| 0 <= j < r@.len() ==> mixed_at(entries@, #[trigger] positions(r@)[j]),
        decreases entries.len() - k,
    {
        let ghost base = positions(r@);
        let params = &entries[k].0.shape.params;
        let mut n: usize = 0;
        while n < params.len()
            invariant
                k < entries@.len(),
                params@ == entries@[k as int].0.shape.params@,
                n <= params@.len(),
                positions(r@) == with_mixed(base, params@, k as int, n as nat),
                forall|j: int|
                    0 <= j < r@.len() ==> mixed_at(entries@, #[trigger] positions(r@)[j]),
            decreases params.len() - n,
        {
            if let ParamShape::ListTupleMixed { .. } = &params[n] {
                let ghost was = positions(r@);
                r.push((k, n));
                proof {
                    assert(positions(r@) =~= was.push((k as int, n as int)));
                    assert forall|j: int| 0 <= j < r@.len() implies mixed_at(
                        entries@,
                        #[trigger] positions(r@)[j],
                    ) by {
                        if j < was.len() {
                            assert(positions(r@)[j] == was[j]);
                        }
                    }
                }
            }
            n = n + 1;
        }
        k = k + 1;
    }
    r
}

/// The helpers for the first `n` positions, one for each suffix.
pub open spec fn mixed_helpers(
    entries: Seq<(DispatchEntry, bool)>,
    ps: Seq<(int, int)>,
    n: nat,
) -> Seq<char>
    decreases n,
{
    if n == 0 {
        Seq::empty()
    } else {
        let before = mixed_helpers(entries, ps, (n - 1) as nat);
        let elements = mixed_elements(entries, ps[n - 1]);
        if words::fresh(mixed_suffixes(entries, ps), n - 1) {
            before + gather::tuple_helper(
                t::TUPLE_HELPER@,
                mixed_tuple_suffix(elements),
                elements.map_values(|e: ListTupleElem| mixed_type(e)),
                elements.map_values(|e: ListTupleElem| mixed_label(e)),
            )
        } else {
            before
        }
    }
}

/// The block of helpers for lists of tuples that may hold records: nothing where there are
/// none.
pub open spec fn mixed_helpers_block(entries: Seq<(DispatchEntry, bool)>) -> Seq<char> {
    let ps = mixed_params(entries, entries.len());
    if ps.len() == 0 {
        Seq::empty()
    } else {
        t::MIXED_HELPERS_HEADER@ + mixed_helpers(entries, ps, ps.len())
    }
}

/// Writes the helpers that read lists of tuples that may hold records, one for each suffix.
pub fn render_tuple_list_mixed_helpers(entries: &Vec<(DispatchEntry, bool)>) -> (r: String)
    ensures
        r@ == mixed_helpers_block(entries@),
{
    let at = collect_tuple_list_mixed_sigs(entries);
    let ghost ps = mixed_params(entries@, entries@.len());
    if at.len() == 0 {
        assert(ps.len() == 0);
        return String::new();
    }
    let mut names: Vec<String> = Vec::new();
    let mut body = String::new();
    let mut k: usize = 0;
    while k < at.len()
        invariant
            k <= at@.len(),
            ps == positions(at@),
            forall|j: int| 0 <= j < at@.len() ==> mixed_at(entries@, #[trigger] positions(at@)[j]),
            names@.len() == k,
            forall|j: int|
                0 <= j < k ==> #[trigger] names@[j]@ == mixed_suffixes(entries@, ps)[j],
            body@ == mixed_helpers(entries@, ps, k as nat),
        decreases at.len() - k,
    {
        assert(mixed_at(entries@, positions(at@)[k as int]));
        let (e, p) = at[k];
        if let ParamShape::ListTupleMixed { elements } = &entries[e].0.shape.params[p] {
            let suffix = list_tuple_mixed_sig_suffix(elements);
            names.push(suffix);
            proof {
                assert(names@[k as int]@ == mixed_suffixes(entries@, ps)[k as int]);
                assert forall|j: int| 0 <= j <= k implies #[trigger] text::strs(names@)[j]
                    == mixed_suffixes(entries@, ps)[j] by {
                    assert(text::strs(names@)[j] == names@[j]@);
                }
            }
            if is_fresh(&names, k) {
                assert(words::fresh(mixed_suffixes(entries@, ps), k as int)) by {
                    assert forall|j: int| 0 <= j < k implies mixed_suffixes(entries@, ps)[j]
                        != mixed_suffixes(entries@, ps)[k as int] by {
                        assert(text::strs(names@)[j] != text::strs(names@)[k as int]);
                    }
                }
                let one = render_mixed_helper(elements);
                body.append(one.as_str());
            } else {
                assert(!words::fresh(mixed_suffixes(entries@, ps), k as int)) by {
                    let j = choose|j: int|
                        0 <= j < k && text::strs(names@)[j] == text::strs(names@)[k as int];
                    assert(mixed_suffixes(entries@, ps)[j] == mixed_suffixes(
                        entries@,
                        ps,
                    )[k as int]);
                }
            }
        }
        k = k + 1;
    }
    assert(ps.len() == at@.len());
    text::cat(t::MIXED_HELPERS_HEADER, body.as_str())
}

// ─── Records ───

/// `base` followed by the records of the first `n` aggregates.
pub open spec fn with_aggregate_records(
    base: Seq<Seq<char>>,
    entries: Seq<AggregateEntry>,
    n: nat,
) -> Seq<Seq<char>>
    decreases n,
{
    if n == 0 {
        base
    } else {
        gather::with_acc_records(
            with_aggregate_records(base, entries, (n - 1) as nat),
            entries[n - 1].shape.accumulator_kind,
        )
    }
}

/// The records that arms read or write, in order.
pub open spec fn referenced_records(
    scalars: Seq<(DispatchEntry, bool)>,
    aggregates: Seq<AggregateEntry>,
) -> Seq<Seq<char>> {
    order::sorted_set(
        with_aggregate_records(
            gather::scalar_records(scalars, scalars.len()),
            aggregates,
            aggregates.len(),
        ),
    )
}

/// Collects the records that arms read or write, in order.
pub fn collect_referenced_records(
    scalar_entries: &Vec<(DispatchEntry, bool)>,
    aggregate_entries: &Vec<AggregateEntry>,
) -> (r: Vec<String>)
    ensures
        text::strs(r@) == referenced_records(scalar_entries@, aggregate_entries@),
{
    let mut out: Vec<String> = Vec::new();
    assert(text::strs(out@) =~= Seq::<Seq<char>>::empty());
    let mut k: usize = 0;
    while k < scalar_entries.len()
        invariant
            k <= scalar_entries@.len(),
            text::strs(out@) == gather::scalar_records(scalar_entries@, k as nat),
        decreases scalar_entries.len() - k,
    {
        let shape = &scalar_entries[k].0.shape;
        gather::push_param_records(&mut out, &shape.params);
        match &shape.ret {
            RetShape::WitValueRecord { kebab_name } => gather::push_text(&mut out, kebab_name.as_str()),
            RetShape::OptionWitValueRecord { kebab_name } => gather::push_text(
                &mut out,
                kebab_name.as_str(),
            ),
            RetShape::FirstWitValueRecord { kebab_name } => gather::push_text(
                &mut out,
                kebab_name.as_str(),
            ),
            _ => {},
        }
        k = k + 1;
    }
    let ghost base = text::strs(out@);
    k = 0;
    while k < aggregate_entries.len()
        invariant
            k <= aggregate_entries@.len(),
            text::strs(out@) == with_aggregate_records(base, aggregate_entries@, k as nat),
        decreases aggregate_entries.len() - k,
    {
        match &aggregate_entries[k].shape.accumulator_kind {
            AccKind::Record { input, output } => {
                gather::push_text(&mut out, input.kebab_name.as_str());
                gather::push_text(&mut out, output.kebab_name.as_str());
            },
            AccKind::RecordSetToRecordSet { input, output } => {
                gather::push_text(&mut out, input.kebab_name.as_str());
                gather::push_text(&mut out, output.kebab_name.as_str());
            },
            AccKind::RecordToScalar { input, output: _, optional: _ } => gather::push_text(
                &mut out,
                input.kebab_name.as_str(),
            ),
            AccKind::RecordToTuple { input, optional: _ } => gather::push_text(
                &mut out,
                input.kebab_name.as_str(),
            ),
            AccKind::RecordToListPrim { input } => gather::push_text(&mut out, input.kebab_name.as_str()),
            _ => {},
        }
        k = k + 1;
    }
    order::sorted(&out)
}

/// Whether a record gets helpers: it belongs to the primary shim and some arm refers to it.
pub open spec fn record_helped(r: RecordType, primary: Seq<char>, referenced: Seq<Seq<char>>) -> bool {
    words::belongs(r.package@, primary) && referenced.contains(r.kebab_name@)
}

/// The helpers that read and write one record.
pub open spec fn record_helpers(r: RecordType) -> Seq<char> {
    let path = gather::upstream_path(r.package@, r.interface@, r.kebab_name@);
    text::fill(t::ARG_WIT_VALUE@, seq![("snake"@, r.helper_snake@), ("upstream_path"@, path)])
        + text::fill(
        t::LIST_RECORD@,
        seq![
            ("snake"@, r.helper_snake@),
            ("upstream_path"@, path),
            ("kebab"@, r.kebab_name@),
        ],
    ) + text::fill(
        t::LIST_LIST_RECORD@,
        seq![
            ("snake"@, r.helper_snake@),
            ("upstream_path"@, path),
            ("kebab"@, r.kebab_name@),
        ],
    ) + text::fill(
        t::RET_WIT_VALUE@,
        seq![
            ("snake"@, r.helper_snake@),
            ("upstream_path"@, path),
            ("symbolic"@, words::escaped(r.symbolic_name@)),
        ],
    )
}

fn render_record_helpers(r: &RecordType) -> (s: String)
    ensures
        s@ == record_helpers(*r),
{
    let path = gather::render_upstream_path(
        r.package.as_str(),
        r.interface.as_str(),
        r.kebab_name.as_str(),
    );
    let snake = r.helper_snake.as_str();
    let kebab = r.kebab_name.as_str();
    let symbolic = escape_quotes(r.symbolic_name.as_str());
    let mut s = fill2(t::ARG_WIT_VALUE, "snake", snake, "upstream_path", path.as_str());
    let list = fill3(t::LIST_RECORD, "snake", snake, "upstream_path", path.as_str(), "kebab", kebab);
    s.append(list.as_str());
    let nested = fill3(
        t::LIST_LIST_RECORD,
        "snake",
        snake,
        "upstream_path",
        path.as_str(),
        "kebab",
        kebab,
    );
    s.append(nested.as_str());
    let ret = fill3(
        t::RET_WIT_VALUE,
        "snake",
        snake,
        "upstream_path",
        path.as_str(),
        "symbolic",
        symbolic.as_str(),
    );
    s.append(ret.as_str());
    s
}

/// The helpers of those of the first `n` records that get some.
pub open spec fn wit_value_helpers(
    records: Seq<RecordType>,
    primary: Seq<char>,
    referenced: Seq<Seq<char>>,
    n: nat,
) -> Seq<char>
    decreases n,
{
    if n == 0 {
        Seq::empty()
    } else if record_helped(records[n - 1], primary, referenced) {
        wit_value_helpers(records, primary, referenced, (n - 1) as nat) + record_helpers(
            records[n - 1],
        )
    } else {
        wit_value_helpers(records, primary, referenced, (n - 1) as nat)
    }
}

/// The block of helpers of all records that get some: nothing where none does.
pub open spec fn wit_value_block(
    records: Seq<RecordType>,
    primary: Seq<char>,
    referenced: Seq<Seq<char>>,
) -> Seq<char> {
    if exists|k: int|
        0 <= k < records.len() && record_helped(#[trigger] records[k], primary, referenced) {
        t::WIT_VALUE_HEADER@ + wit_value_helpers(records, primary, referenced, records.len())
    } else {
        Seq::empty()
    }
}

/// Writes the helpers that read and write the records that arms refer to.
pub fn render_wit_value_helpers(
    records: &Vec<RecordType>,
    primary: &str,
    referenced: &Vec<String>,
) -> (r: String)
    ensures
        r@ == wit_value_block(records@, primary@, text::strs(referenced@)),
{
    let ghost refs = text::strs(referenced@);
    let mut any = false;
    let mut body = String::new();
    let mut k: usize = 0;
    while k < records.len()
        invariant
            k <= records@.len(),
            refs == text::strs(referenced@),
            any == exists|j: int|
                0 <= j < k && record_helped(#[trigger] records@[j], primary@, refs),
            body@ == wit_value_helpers(records@, primary@, refs, k as nat),
        decreases records.len() - k,
    {
        let r = &records[k];
        let ghost was = any;
        if words::package_belongs_to_primary(r.package.as_str(), primary) && words::has(
            referenced,
            r.kebab_name.as_str(),
        ) {
            let one = render_record_helpers(r);
            body.append(one.as_str());
            any = true;
            assert(record_helped(records@[k as int], primary@, refs));
        } else {
            assert(!record_helped(records@[k as int], primary@, refs));
        }
        proof {
            if was {
                let j = choose|j: int|
                    0 <= j < k && record_helped(#[trigger] records@[j], primary@, refs);
                assert(record_helped(records@[j], primary@, refs));
            }
        }
        k = k + 1;
    }
    if any {
        text::cat(t::WIT_VALUE_HEADER, body.as_str())
    } else {
        String::new()
    }
}

// ─── The whole source ───

/// Whether some extension of the plan has casts.
pub open spec fn has_casts(plan: BridgePlan) -> bool {
    exists|k: int|
        0 <= k < plan.extensions@.len() && (#[trigger] plan.extensions@[k]).cast_rewrites@.len()
            > 0
}

fn find_casts(plan: &BridgePlan) -> (r: bool)
    ensures
        r == has_casts(*plan),
{
    let mut k: usize = 0;
    while k < plan.extensions.len()
        invariant
            k <= plan.extensions@.len(),
            forall|j: int|
                0 <= j < k ==> (#[trigger] plan.extensions@[j]).cast_rewrites@.len() == 0,
        decreases plan.extensions.len() - k,
    {
        if plan.extensions[k].cast_rewrites.len() > 0 {
            return true;
        }
        k = k + 1;
    }
    false
}

/// The dispatch of casts: each forwards to the scalar's arm; where there are none, an error.
pub open spec fn cast_dispatch(casts: bool, primary: Seq<char>) -> Seq<char> {
    if casts {
        t::CAST_FORWARD@
    } else {
        text::fill(t::CAST_UNWIRED@, seq![("primary"@, primary)])
    }
}

fn render_cast_dispatch(casts: bool, primary: &str) -> (r: String)
    ensures
        r@ == cast_dispatch(casts, primary@),
{
    if casts {
        t::CAST_FORWARD.to_owned()
    } else {
        fill1(t::CAST_UNWIRED, "primary", primary)
    }
}

/// The name of the bridge's type.
pub open spec fn bridge_name(plan: BridgePlan) -> Seq<char> {
    words::pascal(ir::primary_name(plan), true) + "Bridge"@
}

/// The first part of the source: what it imports, and its type.
pub open spec fn source_head(plan: BridgePlan, inputs: BridgeInputs) -> Seq<char> {
    let primary = ir::primary_name(plan);
    let pkgs = inputs.shim_packages@;
    let ignored = derives::ignored(inputs.duckdb_package, inputs.shim_packages@, primary);
    t::HEADER@ + text::fill(
        t::PRELUDE@,
        seq![("derives_ignore_lits"@, gather::list_lines(ignored, ignored.len()))],
    ) + module_uses(inputs) + gather::where_resource(
        pkgs,
        primary,
        "geometry"@,
        "postgis-error"@,
        t::USE_GEOMETRY@,
    ) + gather::where_resource(pkgs, primary, "raster"@, "raster-error"@, t::USE_RASTER@) + gather::where_resource(
        pkgs,
        primary,
        "topology"@,
        "topology-error"@,
        t::USE_TOPOLOGY@,
    ) + "\n"@ + text::fill(t::STRUCT@, seq![("bridge_struct"@, bridge_name(plan))])
}

fn render_source_head(plan: &BridgePlan, inputs: &BridgeInputs, bridge_struct: &str) -> (r: String)
    requires
        bridge_struct@ == bridge_name(*plan),
    ensures
        r@ == source_head(*plan, *inputs),
{
    let primary = ir::primary_extension_name(plan);
    let pkgs = &inputs.shim_packages;
    let ignored = derives::list_ignored(&inputs.duckdb_package, &inputs.shim_packages, primary);
    let lines = gather::render_list_lines(&ignored);
    let prelude = fill1(t::PRELUDE, "derives_ignore_lits", lines.as_str());
    let mut s = text::cat(t::HEADER, prelude.as_str());
    let uses = render_module_uses(inputs);
    s.append(uses.as_str());
    let geometry = gather::render_where_resource(pkgs, primary, "geometry", "postgis-error", t::USE_GEOMETRY);
    s.append(geometry.as_str());
    let raster = gather::render_where_resource(pkgs, primary, "raster", "raster-error", t::USE_RASTER);
    s.append(raster.as_str());
    let topology = gather::render_where_resource(
        pkgs,
        primary,
        "topology",
        "topology-error",
        t::USE_TOPOLOGY,
    );
    s.append(topology.as_str());
    s.append("\n");
    let bridge = fill1(t::STRUCT, "bridge_struct", bridge_struct);
    s.append(bridge.as_str());
    s
}

/// The second part of the source: the helpers that arms call.
pub open spec fn source_helpers(plan: BridgePlan, inputs: BridgeInputs) -> Seq<char> {
    let primary = ir::primary_name(plan);
    let pkgs = inputs.shim_packages@;
    t::DUCKVALUE_HELPERS@ + t::COLVEC_HELPERS@ + (if packages::primary_has(
        pkgs,
        primary,
        "geometry"@,
        "postgis-error"@,
    ) {
        t::POSTGIS_HELPERS_BODY@
    } else {
        ""@
    }) + gather::where_resource(pkgs, primary, "raster"@, "raster-error"@, t::RASTER_HELPERS@)
        + gather::where_resource(pkgs, primary, "topology"@, "topology-error"@, t::TOPOLOGY_HELPERS@)
        + gather::tuple_helpers_block(
        t::TUPLE_HELPERS_HEADER@,
        t::TUPLE_HELPER@,
        order::sorted_set(
            gather::scalar_signatures(inputs.scalar_entries@, inputs.scalar_entries@.len()),
        ),
    ) + mixed_helpers_block(inputs.scalar_entries@) + wit_value_block(
        inputs.records@,
        primary,
        referenced_records(inputs.scalar_entries@, inputs.aggregate_entries@),
    )
}

fn render_source_helpers(plan: &BridgePlan, inputs: &BridgeInputs) -> (r: String)
    ensures
        r@ == source_helpers(*plan, *inputs),
{
    let primary = ir::primary_extension_name(plan);
    let pkgs = &inputs.shim_packages;
    let mut s = text::cat(t::DUCKVALUE_HELPERS, t::COLVEC_HELPERS);
    let geometry = if packages::has_resource(pkgs, primary, "geometry", "postgis-error") {
        t::POSTGIS_HELPERS_BODY
    } else {
        ""
    };
    s.append(geometry);
    let raster = gather::render_where_resource(pkgs, primary, "raster", "raster-error", t::RASTER_HELPERS);
    s.append(raster.as_str());
    let topology = gather::render_where_resource(
        pkgs,
        primary,
        "topology",
        "topology-error",
        t::TOPOLOGY_HELPERS,
    );
    s.append(topology.as_str());
    let sigs = collect_tuple_list_sigs(&inputs.scalar_entries);
    let tuple_block = render_tuple_list_helpers(&sigs);
    s.append(tuple_block.as_str());
    let mixed = render_tuple_list_mixed_helpers(&inputs.scalar_entries);
    s.append(mixed.as_str());
    let referenced = collect_referenced_records(&inputs.scalar_entries, &inputs.aggregate_entries);
    let records = render_wit_value_helpers(&inputs.records, primary, &referenced);
    s.append(records.as_str());
    s
}

/// The holes of the texts about the dispatch of calls.
pub open spec fn dispatch_holes(plan: BridgePlan, inputs: BridgeInputs) -> Seq<text::Binding> {
    let primary = ir::primary_name(plan);
    seq![
        ("bridge_struct"@, bridge_name(plan)),
        ("scalar_arms"@, scalar_arms(inputs.scalar_entries@, inputs.scalar_entries@.len())),
        (
            "aggregate_arms"@,
            aggregate_arms(
                inputs.aggregate_entries@,
                ir::aggregate_names(inputs.aggregate_entries@).len(),
            ),
        ),
        ("table_arms"@, table_arms(inputs.udtf_entries@, inputs.udtf_entries@.len())),
        ("pragma_arm"@, text::fill(t::PRAGMA@, seq![("primary"@, primary)])),
        ("window_arm"@, window_dispatch(primary, bridge_name(plan), inputs.window_entries@)),
        ("cast_arm"@, cast_dispatch(has_casts(plan), primary)),
    ]
}

/// The third part of the source: the dispatch of calls. Each family's arm is looked up in the
/// table of that family.
pub open spec fn source_dispatch(plan: BridgePlan, inputs: BridgeInputs) -> Seq<char> {
    let holes = dispatch_holes(plan, inputs);
    text::fill(t::DISPATCH_START@, holes) + handle_table::lookup(Family::Aggregate) + text::fill(
        t::DISPATCH_AGGREGATE@,
        holes,
    ) + handle_table::lookup(Family::Scalar) + text::fill(t::DISPATCH_SCALAR@, holes)
        + handle_table::lookup(Family::Table) + text::fill(t::DISPATCH_TABLE@, holes)
}

/// Whether arms can be written for all entries.
pub open spec fn inputs_wired(inputs: BridgeInputs) -> bool {
    scalars_wired(inputs.scalar_entries@) && aggregates_wired(inputs.aggregate_entries@)
        && tables_wired(inputs.udtf_entries@)
}

fn render_source_dispatch(
    plan: &BridgePlan,
    inputs: &BridgeInputs,
    bridge_struct: &str,
    casts: bool,
) -> (r: String)
    requires
        inputs_wired(*inputs),
        bridge_struct@ == bridge_name(*plan),
        casts == has_casts(*plan),
    ensures
        r@ == source_dispatch(*plan, *inputs),
{
    let primary = ir::primary_extension_name(plan);
    let (scalar_arms, _) = build_scalar_arms(&inputs.scalar_entries);
    let (aggregate_arms, _) = build_aggregate_arms(&inputs.aggregate_entries);
    let (table_arms, _) = build_table_arms(&inputs.udtf_entries);
    let pragma_arm = build_pragma_dispatch_impl(primary);
    let window_arm = build_window_dispatch_impl(primary, bridge_struct, &inputs.window_entries);
    let cast_arm = render_cast_dispatch(casts, primary);
    let mut b: Vec<(&str, &str)> = Vec::new();
    b.push(("bridge_struct", bridge_struct));
    b.push(("scalar_arms", scalar_arms.as_str()));
    b.push(("aggregate_arms", aggregate_arms.as_str()));
    b.push(("table_arms", table_arms.as_str()));
    b.push(("pragma_arm", pragma_arm.as_str()));
    b.push(("window_arm", window_arm.as_str()));
    b.push(("cast_arm", cast_arm.as_str()));
    assert(text::bindings(b@) =~= dispatch_holes(*plan, *inputs));
    let mut s = text::fill_with(t::DISPATCH_START, &b);
    s.append(handle_table::pick_lookup(Family::Aggregate));
    let aggregates = text::fill_with(t::DISPATCH_AGGREGATE, &b);
    s.append(aggregates.as_str());
    s.append(handle_table::pick_lookup(Family::Scalar));
    let scalars = text::fill_with(t::DISPATCH_SCALAR, &b);
    s.append(scalars.as_str());
    s.append(handle_table::pick_lookup(Family::Table));
    let tables = text::fill_with(t::DISPATCH_TABLE, &b);
    s.append(tables.as_str());
    s
}

/// The last part of the source: what is registered, and the export of the bridge.
pub open spec fn source_registrations(plan: BridgePlan, inputs: BridgeInputs) -> Seq<char> {
    let scalars = inputs.scalar_entries@;
    register_templates::SCALAR_PRELUDE@ + register::scalar_registrations(
        plan,
        scalars,
        scalars.len(),
    ) + register_templates::CLOSING@ + (if inputs.aggregate_entries@.len() > 0 {
        register_templates::AGGREGATE_PRELUDE@ + register::aggregate_registrations(
            inputs.aggregate_entries@,
            ir::aggregate_names(inputs.aggregate_entries@).len(),
        ) + register_templates::CLOSING@
    } else {
        Seq::empty()
    }) + (if inputs.udtf_entries@.len() > 0 {
        register_templates::TABLE_PRELUDE@ + register::table_registrations(
            inputs.udtf_entries@,
            inputs.udtf_entries@.len(),
        ) + register_templates::CLOSING@
    } else {
        Seq::empty()
    }) + (if has_casts(plan) {
        register_templates::CAST_PRELUDE@ + register::all_cast_registrations(
            ir::scalar_names(scalars),
            plan.extensions@,
            plan.extensions@.len(),
        ) + register_templates::CLOSING@
    } else {
        Seq::empty()
    }) + (if inputs.window_entries@.len() > 0 {
        register_templates::WINDOW_PRELUDE@ + register::window_registrations(
            inputs.window_entries@,
            inputs.window_entries@.len(),
        ) + register_templates::CLOSING@
    } else {
        Seq::empty()
    }) + text::fill(t::EXPORT@, seq![("bridge_struct"@, bridge_name(plan))])
}

fn render_source_registrations(
    plan: &BridgePlan,
    inputs: &BridgeInputs,
    bridge_struct: &str,
    casts: bool,
) -> (r: (String, Vec<UnwiredCast>))
    requires
        bridge_struct@ == bridge_name(*plan),
        casts == has_casts(*plan),
    ensures
        r.0@ == source_registrations(*plan, *inputs),
        casts ==> register::report_all(
            r.1@,
            register::all_unwired_casts(
                ir::scalar_names(inputs.scalar_entries@),
                plan.extensions@,
                plan.extensions@.len(),
            ),
        ),
        !casts ==> r.1@.len() == 0,
{
    let mut s = register::render(plan, &inputs.scalar_entries);
    let aggregates = if inputs.aggregate_entries.len() > 0 {
        register::render_aggregates(plan, &inputs.aggregate_entries)
    } else {
        String::new()
    };
    s.append(aggregates.as_str());
    let tables = if inputs.udtf_entries.len() > 0 {
        register::render_tables(plan, &inputs.udtf_entries)
    } else {
        String::new()
    };
    s.append(tables.as_str());
    let (cast_text, unwired) = if casts {
        register::render_casts(plan, &inputs.scalar_entries)
    } else {
        (String::new(), Vec::new())
    };
    s.append(cast_text.as_str());
    let windows = if inputs.window_entries.len() > 0 {
        register::render_windows(&inputs.window_entries)
    } else {
        String::new()
    };
    s.append(windows.as_str());
    let export = fill1(t::EXPORT, "bridge_struct", bridge_struct);
    s.append(export.as_str());
    (s, unwired)
}

/// The source of a bridge.
pub open spec fn lib_source(plan: BridgePlan, inputs: BridgeInputs) -> Seq<char> {
    source_head(plan, inputs) + source_helpers(plan, inputs) + handle_table::tables()
        + lifecycle::lifecycle(
        bridge_name(plan),
        plan,
        inputs.aggregate_entries@.len() > 0,
        inputs.udtf_entries@.len() > 0,
        has_casts(plan),
        inputs.window_entries@.len() > 0,
        false,
    ) + source_dispatch(plan, inputs) + source_registrations(plan, inputs)
}

/// The source of a bridge, and the casts that it leaves out.
pub struct LibSource {
    pub source: String,
    pub unwired_casts: Vec<UnwiredCast>,
}

/// Writes the source of a bridge, and lists the casts whose function has no scalar arm. The name
/// of the crate does not occur in it.
pub fn lib_rs(plan: &BridgePlan, _crate_name: &str, inputs: &BridgeInputs) -> (r: LibSource)
    requires
        inputs_wired(*inputs),
    ensures
        r.source@ == lib_source(*plan, *inputs),
        register::report_all(
            r.unwired_casts@,
            register::all_unwired_casts(
                ir::scalar_names(inputs.scalar_entries@),
                plan.extensions@,
                plan.extensions@.len(),
            ),
        ),
{
    let primary = ir::primary_extension_name(plan);
    let pascal = pascal_case(primary);
    let bridge = text::cat(pascal.as_str(), "Bridge");
    let bridge_struct = bridge.as_str();
    let casts = find_casts(plan);
    let mut s = render_source_head(plan, inputs, bridge_struct);
    let helpers = render_source_helpers(plan, inputs);
    s.append(helpers.as_str());
    let tables = handle_table::render();
    s.append(tables.as_str());
    let life = lifecycle::render(
        bridge_struct,
        plan,
        inputs.aggregate_entries.len() > 0,
        inputs.udtf_entries.len() > 0,
        casts,
        inputs.window_entries.len() > 0,
        false,
    );
    s.append(life.as_str());
    let calls = render_source_dispatch(plan, inputs, bridge_struct, casts);
    s.append(calls.as_str());
    let (registrations, unwired_casts) = render_source_registrations(
        plan,
        inputs,
        bridge_struct,
        casts,
    );
    s.append(registrations.as_str());
    proof {
        if !casts {
            lemma_no_casts(ir::scalar_names(inputs.scalar_entries@), *plan, plan.extensions@.len());
        }
    }
    LibSource { source: s, unwired_casts }
}

proof fn lemma_no_casts(names: Seq<Seq<char>>, plan: BridgePlan, n: nat)
    requires
        !has_casts(plan),
        n <= plan.extensions@.len(),
    ensures
        register::all_unwired_casts(names, plan.extensions@, n).len() == 0,
    decreases n,
{
    if n > 0 {
        lemma_no_casts(names, plan, (n - 1) as nat);
        assert(plan.extensions@[n - 1].cast_rewrites@.len() == 0);
    }
}

} // verus!
