//! The functions of a plan in the order of their numbers. The manifest lists them under these
//! numbers, and the dispatchers tell them apart by them.

use vstd::prelude::*;
use vstd::string::*;

use crate::ir::{AggregateFn, BridgePlan, ScalarFn, TableFn, WindowEntry, WindowFn};
use crate::sqlite::lib_templates as t;
use crate::text::{self, cat, fill2, fill4, same};
use crate::words::{self, decimal_u64, escape_quotes};

verus! {

// ─── Functions by number ───

/// The number of the first scalar.
pub const SCALAR_BASE: u64 = 1;

/// The number of the first aggregate.
pub const AGGREGATE_BASE: u64 = 1_000_000;

/// The number of the first table function.
pub const TABLE_BASE: u64 = 2_000_000;

/// The number of the first window function.
pub const WINDOW_BASE: u64 = 3_000_000;

/// A function as the manifest lists it.
pub struct Listed {
    pub name: String,
    /// How many arguments it takes, or -1 where that differs.
    pub num_args: i32,
    pub deterministic: bool,
}

/// A function as the manifest lists it.
pub struct ListedFn {
    pub name: Seq<char>,
    pub num_args: int,
    pub deterministic: bool,
}

impl View for Listed {
    type V = ListedFn;

    open spec fn view(&self) -> ListedFn {
        ListedFn {
            name: self.name@,
            num_args: self.num_args as int,
            deterministic: self.deterministic,
        }
    }
}

/// The functions that a vector holds.
pub open spec fn listed(v: Seq<Listed>) -> Seq<ListedFn> {
    v.map_values(|f: Listed| f@)
}

/// `base` followed by a function under its own name and under its aliases.
pub open spec fn with_names(
    base: Seq<ListedFn>,
    name: Seq<char>,
    aliases: Seq<String>,
    num_args: int,
    deterministic: bool,
) -> Seq<ListedFn> {
    base.push(ListedFn { name, num_args, deterministic }) + aliases.map_values(
        |a: String| ListedFn { name: a@, num_args, deterministic },
    )
}

fn push_listed(out: &mut Vec<Listed>, name: &str, num_args: i32, deterministic: bool)
    ensures
        listed(final(out)@) == listed(old(out)@).push(
            (ListedFn { name: name@, num_args: num_args as int, deterministic }),
        ),
{
    let ghost was = listed(out@);
    out.push(Listed { name: name.to_owned(), num_args, deterministic });
    assert(listed(out@) =~= was.push(
        (ListedFn { name: name@, num_args: num_args as int, deterministic }),
    ));
}

fn push_names(
    out: &mut Vec<Listed>,
    name: &str,
    aliases: &Vec<String>,
    num_args: i32,
    deterministic: bool,
)
    ensures
        listed(final(out)@) == with_names(
            listed(old(out)@),
            name@,
            aliases@,
            num_args as int,
            deterministic,
        ),
{
    push_listed(out, name, num_args, deterministic);
    let ghost start = listed(out@);
    let ghost more = aliases@.map_values(
        |a: String| ListedFn { name: a@, num_args: num_args as int, deterministic },
    );
    let mut k: usize = 0;
    assert(start =~= start + more.take(0));
    while k < aliases.len()
        invariant
            k <= aliases@.len(),
            more == aliases@.map_values(
                |a: String| ListedFn { name: a@, num_args: num_args as int, deterministic },
            ),
            listed(out@) == start + more.take(k as int),
        decreases aliases.len() - k,
    {
        push_listed(out, aliases[k].as_str(), num_args, deterministic);
        assert(start + more.take(k + 1) =~= (start + more.take(k as int)).push(more[k as int]));
        k = k + 1;
    }
    assert(more.take(k as int) =~= more);
}

// ─── Arguments ───

/// How many arguments a function takes: as many as each of its overloads, or -1 where these
/// differ or there is none.
pub open spec fn arity(variants: Seq<Vec<String>>) -> int {
    if variants.len() > 0 && forall|k: int|
        0 <= k < variants.len() ==> (#[trigger] variants[k])@.len() == variants[0]@.len() {
        variants[0]@.len() as int
    } else {
        -1
    }
}

/// Whether the number of arguments of each overload fits its field in the manifest.
pub open spec fn arity_fits(variants: Seq<Vec<String>>) -> bool {
    variants.len() > 0 ==> variants[0]@.len() <= i32::MAX
}

fn count_args(variants: &Vec<Vec<String>>) -> (r: i32)
    requires
        arity_fits(variants@),
    ensures
        r == arity(variants@),
{
    if variants.len() == 0 {
        return -1;
    }
    let first = variants[0].len();
    let mut k: usize = 0;
    while k < variants.len()
        invariant
            k <= variants@.len(),
            variants@.len() > 0,
            first == variants@[0]@.len(),
            forall|j: int| 0 <= j < k ==> (#[trigger] variants@[j])@.len() == first,
        decreases variants.len() - k,
    {
        if variants[k].len() != first {
            assert(variants@[k as int]@.len() != variants@[0]@.len());
            return -1;
        }
        k = k + 1;
    }
    first as i32
}

/// How many arguments a scalar takes, or -1 where its overloads differ.
pub fn scalar_num_args(sc: &ScalarFn) -> (r: i32)
    requires
        arity_fits(sc.param_signatures@),
    ensures
        r == arity(sc.param_signatures@),
{
    count_args(&sc.param_signatures)
}

/// How many arguments an aggregate takes, or -1 where its overloads differ.
pub fn aggregate_num_args(ag: &AggregateFn) -> (r: i32)
    requires
        arity_fits(ag.param_signatures@),
    ensures
        r == arity(ag.param_signatures@),
{
    count_args(&ag.param_signatures)
}

/// How many arguments the last of the first `n` entries of a name takes: the value of the row
/// and the extra ones.
pub open spec fn window_entry_args(entries: Seq<WindowEntry>, name: Seq<char>, n: nat) -> Option<int>
    decreases n,
{
    if n == 0 {
        None
    } else if entries[n - 1].sql_name@ == name {
        Some(1 + entries[n - 1].shape.extra_args@.len() as int)
    } else {
        window_entry_args(entries, name, (n - 1) as nat)
    }
}

/// How many arguments a window function takes: those of its entry, or else those of its first
/// overload, or -1.
pub open spec fn window_arity(w: WindowFn, entries: Seq<WindowEntry>) -> int {
    match window_entry_args(entries, w.canonical_name@, entries.len()) {
        Some(n) => n,
        None => if w.param_signatures@.len() > 0 {
            w.param_signatures@[0]@.len() as int
        } else {
            -1
        },
    }
}

/// Whether the number of arguments of each entry fits its field in the manifest.
pub open spec fn entries_fit(entries: Seq<WindowEntry>) -> bool {
    forall|k: int|
        0 <= k < entries.len() ==> (#[trigger] entries[k]).shape.extra_args@.len() < i32::MAX
}

fn window_num_args(w: &WindowFn, entries: &Vec<WindowEntry>) -> (r: i32)
    requires
        arity_fits(w.param_signatures@),
        entries_fit(entries@),
    ensures
        r == window_arity(*w, entries@),
{
    let mut n: usize = entries.len();
    while n > 0
        invariant
            n <= entries@.len(),
            entries_fit(entries@),
            window_entry_args(entries@, w.canonical_name@, entries@.len()) == window_entry_args(
                entries@,
                w.canonical_name@,
                n as nat,
            ),
        decreases n,
    {
        n = n - 1;
        if same(entries[n].sql_name.as_str(), w.canonical_name.as_str()) {
            assert(entries@[n as int].shape.extra_args@.len() < i32::MAX);
            return 1 + entries[n].shape.extra_args.len() as i32;
        }
    }
    if w.param_signatures.len() > 0 {
        w.param_signatures[0].len() as i32
    } else {
        -1
    }
}

// ─── Listings ───

/// `base` followed by the first `n` of an extension's scalars.
pub open spec fn with_scalars(
    base: Seq<ListedFn>,
    v: Seq<ScalarFn>,
    n: nat,
) -> Seq<ListedFn>
    decreases n,
{
    if n == 0 {
        base
    } else {
        let f = v[n - 1];
        with_names(
            with_scalars(base, v, (n - 1) as nat),
            f.canonical_name@,
            f.aliases@,
            arity(f.param_signatures@),
            f.is_deterministic,
        )
    }
}

/// The scalars of the first `n` extensions, in the order of their numbers.
pub open spec fn scalars_prefix(
    plan: BridgePlan,
    n: nat,
) -> Seq<ListedFn>
    decreases n,
{
    if n == 0 {
        Seq::empty()
    } else {
        let v = plan.extensions@[n - 1].scalars@;
        with_scalars(scalars_prefix(plan, (n - 1) as nat), v, v.len())
    }
}

/// The scalars of a plan, in the order of their numbers.
pub open spec fn scalars_of(plan: BridgePlan) -> Seq<ListedFn> {
    scalars_prefix(plan, plan.extensions@.len())
}

/// Whether the numbers of arguments of an extension's scalars fit.
pub open spec fn scalars_fit(v: Seq<ScalarFn>) -> bool {
    forall|k: int| 0 <= k < v.len() ==> arity_fits((#[trigger] v[k]).param_signatures@)
}

/// Lists the scalars of a plan, in the order of their numbers.
pub fn build_scalar_id_index(plan: &BridgePlan) -> (r: Vec<Listed>)
    requires
        forall|k: int|
            0 <= k < plan.extensions@.len() ==> scalars_fit((#[trigger] plan.extensions@[k]).scalars@),
    ensures
        listed(r@) == scalars_of(*plan),
{
    let mut r: Vec<Listed> = Vec::new();
    let mut k: usize = 0;
    assert(listed(r@) =~= Seq::<ListedFn>::empty());
    while k < plan.extensions.len()
        invariant
            k <= plan.extensions@.len(),
            forall|k: int|
                0 <= k < plan.extensions@.len() ==> scalars_fit((#[trigger] plan.extensions@[k]).scalars@),
            listed(r@) == scalars_prefix(*plan, k as nat),
        decreases plan.extensions.len() - k,
    {
        let v = &plan.extensions[k].scalars;
        let ghost base = listed(r@);
        let mut n: usize = 0;
        while n < v.len()
            invariant
                n <= v@.len(),
                scalars_fit(v@),
                listed(r@) == with_scalars(base, v@, n as nat),
            decreases v.len() - n,
        {
            let f = &v[n];
            push_names(
                &mut r,
                f.canonical_name.as_str(),
                &f.aliases,
                scalar_num_args(f),
                f.is_deterministic,
            );
            n = n + 1;
        }
        k = k + 1;
    }
    r
}

/// `base` followed by the first `n` of an extension's aggregates.
pub open spec fn with_aggregates(
    base: Seq<ListedFn>,
    v: Seq<AggregateFn>,
    n: nat,
) -> Seq<ListedFn>
    decreases n,
{
    if n == 0 {
        base
    } else {
        let f = v[n - 1];
        with_names(
            with_aggregates(base, v, (n - 1) as nat),
            f.canonical_name@,
            f.aliases@,
            arity(f.param_signatures@),
            false,
        )
    }
}

/// The aggregates of the first `n` extensions, in the order of their numbers.
pub open spec fn aggregates_prefix(
    plan: BridgePlan,
    n: nat,
) -> Seq<ListedFn>
    decreases n,
{
    if n == 0 {
        Seq::empty()
    } else {
        let v = plan.extensions@[n - 1].aggregates@;
        with_aggregates(aggregates_prefix(plan, (n - 1) as nat), v, v.len())
    }
}

/// The aggregates of a plan, in the order of their numbers.
pub open spec fn aggregates_of(plan: BridgePlan) -> Seq<ListedFn> {
    aggregates_prefix(plan, plan.extensions@.len())
}

/// Whether the numbers of arguments of an extension's aggregates fit.
pub open spec fn aggregates_fit(v: Seq<AggregateFn>) -> bool {
    forall|k: int| 0 <= k < v.len() ==> arity_fits((#[trigger] v[k]).param_signatures@)
}

/// Lists the aggregates of a plan, in the order of their numbers.
pub fn build_aggregate_id_index(plan: &BridgePlan) -> (r: Vec<Listed>)
    requires
        forall|k: int|
            0 <= k < plan.extensions@.len() ==> aggregates_fit((#[trigger] plan.extensions@[k]).aggregates@),
    ensures
        listed(r@) == aggregates_of(*plan),
{
    let mut r: Vec<Listed> = Vec::new();
    let mut k: usize = 0;
    assert(listed(r@) =~= Seq::<ListedFn>::empty());
    while k < plan.extensions.len()
        invariant
            k <= plan.extensions@.len(),
            forall|k: int|
                0 <= k < plan.extensions@.len() ==> aggregates_fit((#[trigger] plan.extensions@[k]).aggregates@),
            listed(r@) == aggregates_prefix(*plan, k as nat),
        decreases plan.extensions.len() - k,
    {
        let v = &plan.extensions[k].aggregates;
        let ghost base = listed(r@);
        let mut n: usize = 0;
        while n < v.len()
            invariant
                n <= v@.len(),
                aggregates_fit(v@),
                listed(r@) == with_aggregates(base, v@, n as nat),
            decreases v.len() - n,
        {
            let f = &v[n];
            push_names(
                &mut r,
                f.canonical_name.as_str(),
                &f.aliases,
                aggregate_num_args(f),
                false,
            );
            n = n + 1;
        }
        k = k + 1;
    }
    r
}

/// `base` followed by the first `n` of an extension's window functions.
pub open spec fn with_windows(
    base: Seq<ListedFn>,
    v: Seq<WindowFn>,
    entries: Seq<WindowEntry>,
    n: nat,
) -> Seq<ListedFn>
    decreases n,
{
    if n == 0 {
        base
    } else {
        let f = v[n - 1];
        with_names(
            with_windows(base, v, entries, (n - 1) as nat),
            f.canonical_name@,
            f.aliases@,
            window_arity(f, entries),
            false,
        )
    }
}

/// The window functions of the first `n` extensions, in the order of their numbers.
pub open spec fn windows_prefix(
    plan: BridgePlan,
    entries: Seq<WindowEntry>,
    n: nat,
) -> Seq<ListedFn>
    decreases n,
{
    if n == 0 {
        Seq::empty()
    } else {
        let v = plan.extensions@[n - 1].window_functions@;
        with_windows(windows_prefix(plan, entries, (n - 1) as nat), v, entries, v.len())
    }
}

/// The window functions of a plan, in the order of their numbers.
pub open spec fn windows_of(plan: BridgePlan, entries: Seq<WindowEntry>) -> Seq<ListedFn> {
    windows_prefix(plan, entries, plan.extensions@.len())
}

/// Whether the numbers of arguments of an extension's window functions fit.
pub open spec fn windows_fit(v: Seq<WindowFn>) -> bool {
    forall|k: int| 0 <= k < v.len() ==> arity_fits((#[trigger] v[k]).param_signatures@)
}

/// Lists the window functions of a plan, in the order of their numbers.
pub fn build_window_id_index(plan: &BridgePlan, window_entries: &Vec<WindowEntry>) -> (r: Vec<Listed>)
    requires
        forall|k: int|
            0 <= k < plan.extensions@.len() ==> windows_fit((#[trigger] plan.extensions@[k]).window_functions@),
        entries_fit(window_entries@),
    ensures
        listed(r@) == windows_of(*plan, window_entries@),
{
    let mut r: Vec<Listed> = Vec::new();
    let mut k: usize = 0;
    assert(listed(r@) =~= Seq::<ListedFn>::empty());
    while k < plan.extensions.len()
        invariant
            k <= plan.extensions@.len(),
            forall|k: int|
                0 <= k < plan.extensions@.len() ==> windows_fit((#[trigger] plan.extensions@[k]).window_functions@),
            entries_fit(window_entries@),
            listed(r@) == windows_prefix(*plan, window_entries@, k as nat),
        decreases plan.extensions.len() - k,
    {
        let v = &plan.extensions[k].window_functions;
        let ghost base = listed(r@);
        let mut n: usize = 0;
        while n < v.len()
            invariant
                n <= v@.len(),
                windows_fit(v@),
                entries_fit(window_entries@),
                listed(r@) == with_windows(base, v@, window_entries@, n as nat),
            decreases v.len() - n,
        {
            let f = &v[n];
            push_names(
                &mut r,
                f.canonical_name.as_str(),
                &f.aliases,
                window_num_args(f, window_entries),
                false,
            );
            n = n + 1;
        }
        k = k + 1;
    }
    r
}

/// `base` followed by the first `n` of an extension's table functions.
pub open spec fn with_tables(
    base: Seq<ListedFn>,
    v: Seq<TableFn>,
    n: nat,
) -> Seq<ListedFn>
    decreases n,
{
    if n == 0 {
        base
    } else {
        let f = v[n - 1];
        with_names(
            with_tables(base, v, (n - 1) as nat),
            f.canonical_name@,
            f.aliases@,
            0,
            false,
        )
    }
}

/// The table functions of the first `n` extensions, in the order of their numbers.
pub open spec fn tables_prefix(
    plan: BridgePlan,
    n: nat,
) -> Seq<ListedFn>
    decreases n,
{
    if n == 0 {
        Seq::empty()
    } else {
        let v = plan.extensions@[n - 1].table_functions@;
        with_tables(tables_prefix(plan, (n - 1) as nat), v, v.len())
    }
}

/// The table functions of a plan, in the order of their numbers.
pub open spec fn tables_of(plan: BridgePlan) -> Seq<ListedFn> {
    tables_prefix(plan, plan.extensions@.len())
}

/// Lists the table functions of a plan, in the order of their numbers.
pub fn build_udtf_id_index(plan: &BridgePlan) -> (r: Vec<Listed>)
    ensures
        listed(r@) == tables_of(*plan),
{
    let mut r: Vec<Listed> = Vec::new();
    let mut k: usize = 0;
    assert(listed(r@) =~= Seq::<ListedFn>::empty());
    while k < plan.extensions.len()
        invariant
            k <= plan.extensions@.len(),
            listed(r@) == tables_prefix(*plan, k as nat),
        decreases plan.extensions.len() - k,
    {
        let v = &plan.extensions[k].table_functions;
        let ghost base = listed(r@);
        let mut n: usize = 0;
        while n < v.len()
            invariant
                n <= v@.len(),
                listed(r@) == with_tables(base, v@, n as nat),
            decreases v.len() - n,
        {
            let f = &v[n];
            push_names(
                &mut r,
                f.canonical_name.as_str(),
                &f.aliases,
                0,
                false,
            );
            n = n + 1;
        }
        k = k + 1;
    }
    r
}

// ─── Numbers of names ───

/// The number of the last of the first `n` functions of a name, where the first has number
/// `base`.
pub open spec fn id_from(v: Seq<ListedFn>, base: nat, name: Seq<char>, n: nat) -> Option<nat>
    decreases n,
{
    if n == 0 {
        None
    } else if v[n - 1].name == name {
        Some((base + n - 1) as nat)
    } else {
        id_from(v, base, name, (n - 1) as nat)
    }
}

/// The number of a name: of functions that share one, that of the last.
pub open spec fn id_of(v: Seq<ListedFn>, base: nat, name: Seq<char>) -> Option<nat> {
    id_from(v, base, name, v.len())
}

/// Whether all numbers fit their type.
pub open spec fn ids_fit(v: Seq<ListedFn>, base: nat) -> bool {
    base + v.len() <= u64::MAX
}

/// The number of a name.
pub fn find_id(v: &Vec<Listed>, base: u64, name: &str) -> (r: Option<u64>)
    requires
        ids_fit(listed(v@), base as nat),
    ensures
        match r {
            Some(id) => id_of(listed(v@), base as nat, name@) == Some(id as nat),
            None => id_of(listed(v@), base as nat, name@) is None,
        },
{
    let ghost all = listed(v@);
    let mut n: usize = v.len();
    while n > 0
        invariant
            n <= v@.len(),
            all == listed(v@),
            ids_fit(all, base as nat),
            id_of(all, base as nat, name@) == id_from(all, base as nat, name@, n as nat),
        decreases n,
    {
        n = n - 1;
        assert(all[n as int] == v@[n as int]@);
        if same(v[n].name.as_str(), name) {
            return Some(base + n as u64);
        }
    }
    None
}

/// The number of a name is one under which the list holds that name; a name without a number is
/// not in the list.
pub proof fn law_id_listed(v: Seq<ListedFn>, base: nat, name: Seq<char>)
    ensures
        match id_of(v, base, name) {
            Some(id) => base <= id < base + v.len() && v[id - base].name == name,
            None => forall|k: int| 0 <= k < v.len() ==> (#[trigger] v[k]).name != name,
        },
{
    lemma_id_from(v, base, name, v.len());
}

proof fn lemma_id_from(v: Seq<ListedFn>, base: nat, name: Seq<char>, n: nat)
    requires
        n <= v.len(),
    ensures
        match id_from(v, base, name, n) {
            Some(id) => base <= id < base + n && v[id - base].name == name,
            None => forall|k: int| 0 <= k < n ==> (#[trigger] v[k]).name != name,
        },
    decreases n,
{
    if n > 0 && v[n - 1].name != name {
        lemma_id_from(v, base, name, (n - 1) as nat);
    }
}

/// Two names with one number are one name.
pub proof fn law_ids_tell_names_apart(v: Seq<ListedFn>, base: nat, a: Seq<char>, b: Seq<char>)
    requires
        id_of(v, base, a) is Some,
        id_of(v, base, a) == id_of(v, base, b),
    ensures
        a == b,
{
    law_id_listed(v, base, a);
    law_id_listed(v, base, b);
}

/// No number stands for functions of two kinds, where there are fewer than a million functions of
/// each kind.
pub proof fn law_kinds_apart(
    scalars: Seq<ListedFn>,
    aggregates: Seq<ListedFn>,
    tables: Seq<ListedFn>,
    windows: Seq<ListedFn>,
    a: Seq<char>,
    b: Seq<char>,
    c: Seq<char>,
    d: Seq<char>,
)
    requires
        scalars.len() < 1_000_000,
        aggregates.len() < 1_000_000,
        tables.len() < 1_000_000,
        id_of(scalars, SCALAR_BASE as nat, a) is Some,
        id_of(aggregates, AGGREGATE_BASE as nat, b) is Some,
        id_of(tables, TABLE_BASE as nat, c) is Some,
        id_of(windows, WINDOW_BASE as nat, d) is Some,
    ensures
        id_of(scalars, SCALAR_BASE as nat, a)->0 < id_of(aggregates, AGGREGATE_BASE as nat, b)->0,
        id_of(aggregates, AGGREGATE_BASE as nat, b)->0 < id_of(tables, TABLE_BASE as nat, c)->0,
        id_of(tables, TABLE_BASE as nat, c)->0 < id_of(windows, WINDOW_BASE as nat, d)->0,
{
    law_id_listed(scalars, SCALAR_BASE as nat, a);
    law_id_listed(aggregates, AGGREGATE_BASE as nat, b);
    law_id_listed(tables, TABLE_BASE as nat, c);
    law_id_listed(windows, WINDOW_BASE as nat, d);
}

// ─── Arms ───

/// The numbers that arms have after the first `n` names, where those in `taken` had one before.
/// A name without a number gets no arm, and no number gets two.
pub open spec fn arm_ids(
    taken: Seq<nat>,
    names: Seq<Seq<char>>,
    v: Seq<ListedFn>,
    base: nat,
    n: nat,
) -> Seq<nat>
    decreases n,
{
    if n == 0 {
        taken
    } else {
        let head = arm_ids(taken, names, v, base, (n - 1) as nat);
        match id_of(v, base, names[n - 1]) {
            Some(id) => if head.contains(id) {
                head
            } else {
                head.push(id)
            },
            None => head,
        }
    }
}

/// The number of the arm of the name at `k`, where it gets one.
pub open spec fn arm_at(
    taken: Seq<nat>,
    names: Seq<Seq<char>>,
    v: Seq<ListedFn>,
    base: nat,
    k: nat,
) -> Option<nat> {
    match id_of(v, base, names[k as int]) {
        Some(id) => if arm_ids(taken, names, v, base, k).contains(id) {
            None
        } else {
            Some(id)
        },
        None => None,
    }
}

/// Numbers as a vector holds them.
pub open spec fn numbers(v: Seq<u64>) -> Seq<nat> {
    v.map_values(|x: u64| x as nat)
}

fn is_taken(seen: &Vec<u64>, id: u64) -> (r: bool)
    ensures
        r == numbers(seen@).contains(id as nat),
{
    let mut k: usize = 0;
    while k < seen.len()
        invariant
            k <= seen@.len(),
            forall|j: int| 0 <= j < k ==> #[trigger] numbers(seen@)[j] != id as nat,
        decreases seen.len() - k,
    {
        if seen[k] == id {
            assert(numbers(seen@)[k as int] == id as nat);
            return true;
        }
        k = k + 1;
    }
    false
}

/// Takes the number of the next name for an arm, unless it has none or an arm has it.
pub fn next_arm(seen: &mut Vec<u64>, v: &Vec<Listed>, base: u64, name: &str) -> (r: Option<u64>)
    requires
        ids_fit(listed(v@), base as nat),
    ensures
        match id_of(listed(v@), base as nat, name@) {
            Some(id) => if numbers(old(seen)@).contains(id) {
                r is None && numbers(final(seen)@) == numbers(old(seen)@)
            } else {
                r matches Some(x) && x as nat == id && numbers(final(seen)@) == numbers(
                    old(seen)@,
                ).push(id)
            },
            None => r is None && numbers(final(seen)@) == numbers(old(seen)@),
        },
{
    match find_id(v, base, name) {
        Some(id) => {
            if is_taken(seen, id) {
                None
            } else {
                let ghost was = numbers(seen@);
                seen.push(id);
                assert(numbers(seen@) =~= was.push(id as nat));
                Some(id)
            }
        },
        None => None,
    }
}

/// Each number that has a name among the first `n` has an arm, each arm but those before has
/// such a number, and no number has two arms.
pub proof fn law_one_arm_each(
    taken: Seq<nat>,
    names: Seq<Seq<char>>,
    v: Seq<ListedFn>,
    base: nat,
    n: nat,
    id: nat,
)
    requires
        n <= names.len(),
        taken.no_duplicates(),
    ensures
        arm_ids(taken, names, v, base, n).no_duplicates(),
        arm_ids(taken, names, v, base, n).contains(id) <==> taken.contains(id) || exists|k: int|
            0 <= k < n && id_of(v, base, #[trigger] names[k]) == Some(id),
    decreases n,
{
    if n > 0 {
        law_one_arm_each(taken, names, v, base, (n - 1) as nat, id);
        let head = arm_ids(taken, names, v, base, (n - 1) as nat);
        let all = arm_ids(taken, names, v, base, n);
        if head.contains(id) {
            let j = choose|j: int| 0 <= j < head.len() && head[j] == id;
            assert(all[j] == id);
        }
        if let Some(new) = id_of(v, base, names[n - 1]) {
            if !head.contains(new) {
                assert(all[head.len() as int] == new);
            } else if new == id {
                assert(all.contains(id));
            }
        }
        if all.contains(id) && !head.contains(id) {
            let j = choose|j: int| 0 <= j < all.len() && all[j] == id;
            assert(j == head.len());
            assert(id_of(v, base, names[n - 1]) == Some(id));
        }
    }
}

// ─── The manifest ───

/// A number with its sign.
pub open spec fn signed(n: int) -> Seq<char> {
    if n < 0 {
        "-"@ + words::decimal((-n) as nat)
    } else {
        words::decimal(n as nat)
    }
}

fn render_signed(n: i32) -> (r: String)
    ensures
        r@ == signed(n as int),
{
    if n < 0 {
        let digits = decimal_u64((-(n as i64)) as u64);
        cat("-", digits.as_str())
    } else {
        decimal_u64(n as u64)
    }
}

/// A scalar in the manifest.
pub open spec fn scalar_entry(id: nat, name: Seq<char>, num_args: int, det: bool) -> Seq<char> {
    text::fill(
        t::SCALAR_ENTRY@,
        seq![
            ("id"@, words::decimal(id)),
            ("name"@, words::escaped(name)),
            ("num_args"@, signed(num_args)),
            (
                "flags"@,
                if det {
                    "det"@
                } else {
                    "FunctionFlags::empty()"@
                },
            ),
        ],
    )
}

/// The first `n` scalars in the manifest.
pub open spec fn scalar_entries(v: Seq<ListedFn>, n: nat) -> Seq<char>
    decreases n,
{
    if n == 0 {
        Seq::empty()
    } else {
        scalar_entries(v, (n - 1) as nat) + scalar_entry(
            (SCALAR_BASE + n - 1) as nat,
            v[n - 1].name,
            v[n - 1].num_args,
            v[n - 1].deterministic,
        )
    }
}

/// An aggregate or a window function in the manifest.
pub open spec fn aggregate_entry(id: nat, name: Seq<char>, num_args: int, is_window: bool) -> Seq<
    char,
> {
    text::fill(
        t::AGGREGATE_ENTRY@,
        seq![
            ("id"@, words::decimal(id)),
            ("name"@, words::escaped(name)),
            ("num_args"@, signed(num_args)),
            (
                "is_window"@,
                if is_window {
                    "true"@
                } else {
                    "false"@
                },
            ),
        ],
    )
}

/// The first `n` aggregates or window functions in the manifest.
pub open spec fn aggregate_entries(v: Seq<ListedFn>, base: nat, is_window: bool, n: nat) -> Seq<char>
    decreases n,
{
    if n == 0 {
        Seq::empty()
    } else {
        aggregate_entries(v, base, is_window, (n - 1) as nat) + aggregate_entry(
            (base + n - 1) as nat,
            v[n - 1].name,
            v[n - 1].num_args,
            is_window,
        )
    }
}

/// A table function in the manifest.
pub open spec fn vtab_entry(id: nat, name: Seq<char>) -> Seq<char> {
    text::fill(
        t::VTAB_ENTRY@,
        seq![("id"@, words::decimal(id)), ("name"@, words::escaped(name))],
    )
}

/// The first `n` table functions in the manifest.
pub open spec fn vtab_entries(v: Seq<ListedFn>, n: nat) -> Seq<char>
    decreases n,
{
    if n == 0 {
        Seq::empty()
    } else {
        vtab_entries(v, (n - 1) as nat) + vtab_entry((TABLE_BASE + n - 1) as nat, v[n - 1].name)
    }
}

/// Puts a scalar's entry in the manifest behind `out`.
pub fn push_scalar_entry(out: &mut String, id: u64, name: &str, num_args: i32, det: bool)
    ensures
        final(out)@ == old(out)@ + scalar_entry(id as nat, name@, num_args as int, det),
{
    let number = decimal_u64(id);
    let escaped = escape_quotes(name);
    let args = render_signed(num_args);
    let flags = if det {
        "det"
    } else {
        "FunctionFlags::empty()"
    };
    let entry = fill4(
        t::SCALAR_ENTRY,
        "id",
        number.as_str(),
        "name",
        escaped.as_str(),
        "num_args",
        args.as_str(),
        "flags",
        flags,
    );
    out.append(entry.as_str());
}

/// Puts an aggregate's or a window function's entry in the manifest behind `out`.
pub fn push_aggregate_entry(
    out: &mut String,
    id: u64,
    name: &str,
    num_args: i32,
    is_window: bool,
)
    ensures
        final(out)@ == old(out)@ + aggregate_entry(id as nat, name@, num_args as int, is_window),
{
    let number = decimal_u64(id);
    let escaped = escape_quotes(name);
    let args = render_signed(num_args);
    let flag = if is_window {
        "true"
    } else {
        "false"
    };
    let entry = fill4(
        t::AGGREGATE_ENTRY,
        "id",
        number.as_str(),
        "name",
        escaped.as_str(),
        "num_args",
        args.as_str(),
        "is_window",
        flag,
    );
    out.append(entry.as_str());
}

/// Puts a table function's entry in the manifest behind `out`.
pub fn push_vtab_entry(out: &mut String, id: u64, name: &str)
    ensures
        final(out)@ == old(out)@ + vtab_entry(id as nat, name@),
{
    let number = decimal_u64(id);
    let escaped = escape_quotes(name);
    let entry = fill2(t::VTAB_ENTRY, "id", number.as_str(), "name", escaped.as_str());
    out.append(entry.as_str());
}

/// Writes the scalars of the manifest.
pub fn render_scalar_entries(v: &Vec<Listed>) -> (r: String)
    requires
        ids_fit(listed(v@), SCALAR_BASE as nat),
    ensures
        r@ == scalar_entries(listed(v@), v@.len()),
{
    let mut r = String::new();
    let mut k: usize = 0;
    while k < v.len()
        invariant
            k <= v@.len(),
            ids_fit(listed(v@), SCALAR_BASE as nat),
            r@ == scalar_entries(listed(v@), k as nat),
        decreases v.len() - k,
    {
        let f = &v[k];
        assert(listed(v@)[k as int] == f@);
        push_scalar_entry(
            &mut r,
            SCALAR_BASE + k as u64,
            f.name.as_str(),
            f.num_args,
            f.deterministic,
        );
        k = k + 1;
    }
    r
}

/// Writes the aggregates or the window functions of the manifest.
pub fn render_aggregate_entries(v: &Vec<Listed>, base: u64, is_window: bool) -> (r: String)
    requires
        ids_fit(listed(v@), base as nat),
    ensures
        r@ == aggregate_entries(listed(v@), base as nat, is_window, v@.len()),
{
    let mut r = String::new();
    let mut k: usize = 0;
    while k < v.len()
        invariant
            k <= v@.len(),
            ids_fit(listed(v@), base as nat),
            r@ == aggregate_entries(listed(v@), base as nat, is_window, k as nat),
        decreases v.len() - k,
    {
        let f = &v[k];
        assert(listed(v@)[k as int] == f@);
        push_aggregate_entry(&mut r, base + k as u64, f.name.as_str(), f.num_args, is_window);
        k = k + 1;
    }
    r
}

/// Writes the table functions of the manifest.
pub fn render_vtab_entries(v: &Vec<Listed>) -> (r: String)
    requires
        ids_fit(listed(v@), TABLE_BASE as nat),
    ensures
        r@ == vtab_entries(listed(v@), v@.len()),
{
    let mut r = String::new();
    let mut k: usize = 0;
    while k < v.len()
        invariant
            k <= v@.len(),
            ids_fit(listed(v@), TABLE_BASE as nat),
            r@ == vtab_entries(listed(v@), k as nat),
        decreases v.len() - k,
    {
        let f = &v[k];
        assert(listed(v@)[k as int] == f@);
        push_vtab_entry(&mut r, TABLE_BASE + k as u64, f.name.as_str());
        k = k + 1;
    }
    r
}

/// Whether a name is the canonical name of a function or one of its aliases.
pub open spec fn named_by(canonical: Seq<char>, aliases: Seq<String>, name: Seq<char>) -> bool {
    name == canonical || exists|a: int| 0 <= a < aliases.len() && #[trigger] aliases[a]@ == name
}

proof fn lemma_names_listed(
    base: Seq<ListedFn>,
    name: Seq<char>,
    aliases: Seq<String>,
    num_args: int,
    deterministic: bool,
    x: ListedFn,
)
    ensures
        base.contains(x) ==> with_names(base, name, aliases, num_args, deterministic).contains(x),
        named_by(name, aliases, x.name) && x.num_args == num_args && x.deterministic
            == deterministic ==> with_names(base, name, aliases, num_args, deterministic).contains(
            x,
        ),
{
    let all = with_names(base, name, aliases, num_args, deterministic);
    if base.contains(x) {
        let k = choose|k: int| 0 <= k < base.len() && base[k] == x;
        assert(all[k] == x);
    }
    if named_by(name, aliases, x.name) && x.num_args == num_args && x.deterministic
        == deterministic {
        if x.name == name {
            assert(all[base.len() as int] == x);
        } else {
            let a = choose|a: int| 0 <= a < aliases.len() && #[trigger] aliases[a]@ == x.name;
            assert(all[base.len() + 1 + a] == x);
        }
    }
}

/// The number of arguments of a function that all its signatures agree on is that number, and
/// that of a function without signatures, or with signatures that differ, is -1: any number.
pub proof fn law_arity(variants: Seq<Vec<String>>, n: nat)
    ensures
        variants.len() > 0 && (forall|k: int|
            0 <= k < variants.len() ==> (#[trigger] variants[k])@.len() == n) ==> arity(variants)
            == n,
        variants.len() == 0 ==> arity(variants) == -1,
        (exists|k: int, j: int|
            0 <= k < variants.len() && 0 <= j < variants.len() && (#[trigger] variants[k])@.len()
                != (#[trigger] variants[j])@.len()) ==> arity(variants) == -1,
{
}

/// The number of arguments of a window function that an entry computes is one for the value of
/// the row and one for each extra argument of its last entry. Any other has as many as its first
/// signature, or any number where it has none.
pub proof fn law_window_arity(w: WindowFn, entries: Seq<WindowEntry>, k: int)
    requires
        0 <= k < entries.len() ==> entries[k].sql_name@ == w.canonical_name@,
        forall|j: int|
            (k < j < entries.len() || !(0 <= k < entries.len())) && 0 <= j < entries.len()
                ==> (#[trigger] entries[j]).sql_name@ != w.canonical_name@,
    ensures
        window_arity(w, entries) == if 0 <= k < entries.len() {
            1 + entries[k].shape.extra_args@.len() as int
        } else if w.param_signatures@.len() > 0 {
            w.param_signatures@[0]@.len() as int
        } else {
            -1
        },
{
    lemma_window_entry(entries, w.canonical_name@, entries.len(), k);
}

proof fn lemma_window_entry(entries: Seq<WindowEntry>, name: Seq<char>, n: nat, k: int)
    requires
        n <= entries.len(),
        0 <= k < n ==> entries[k].sql_name@ == name,
        forall|j: int|
            (k < j < n || !(0 <= k < n)) && 0 <= j < n ==> (#[trigger] entries[j]).sql_name@ != name,
    ensures
        window_entry_args(entries, name, n) == if 0 <= k < n {
            Some(1 + entries[k].shape.extra_args@.len() as int)
        } else {
            None
        },
    decreases n,
{
    if n > 0 && k != n - 1 {
        assert(entries[n - 1].sql_name@ != name);
        lemma_window_entry(entries, name, (n - 1) as nat, k);
    }
}

/// Each function of each extension is listed under its name and under each of its aliases: a
/// scalar with its number of arguments and whether it is deterministic, an aggregate with its
/// number of arguments, a window function with that of its entry, and a table without arguments.
pub proof fn law_every_function_listed(
    plan: BridgePlan,
    entries: Seq<WindowEntry>,
    e: int,
    k: int,
    name: Seq<char>,
)
    requires
        0 <= e < plan.extensions@.len(),
    ensures
        ({
            let ext = plan.extensions@[e];
            &&& 0 <= k < ext.scalars@.len() && named_by(
                ext.scalars@[k].canonical_name@,
                ext.scalars@[k].aliases@,
                name,
            ) ==> scalars_of(plan).contains(
                ListedFn {
                    name,
                    num_args: arity(ext.scalars@[k].param_signatures@),
                    deterministic: ext.scalars@[k].is_deterministic,
                },
            )
            &&& 0 <= k < ext.aggregates@.len() && named_by(
                ext.aggregates@[k].canonical_name@,
                ext.aggregates@[k].aliases@,
                name,
            ) ==> aggregates_of(plan).contains(
                ListedFn {
                    name,
                    num_args: arity(ext.aggregates@[k].param_signatures@),
                    deterministic: false,
                },
            )
            &&& 0 <= k < ext.window_functions@.len() && named_by(
                ext.window_functions@[k].canonical_name@,
                ext.window_functions@[k].aliases@,
                name,
            ) ==> windows_of(plan, entries).contains(
                ListedFn {
                    name,
                    num_args: window_arity(ext.window_functions@[k], entries),
                    deterministic: false,
                },
            )
            &&& 0 <= k < ext.table_functions@.len() && named_by(
                ext.table_functions@[k].canonical_name@,
                ext.table_functions@[k].aliases@,
                name,
            ) ==> tables_of(plan).contains(ListedFn { name, num_args: 0, deterministic: false })
        }),
{
    let ext = plan.extensions@[e];
    let n = plan.extensions@.len();
    if 0 <= k < ext.scalars@.len() {
        let f = ext.scalars@[k];
        if named_by(f.canonical_name@, f.aliases@, name) {
            lemma_scalars_of_plan(
                plan,
                n,
                e,
                k,
                ListedFn {
                    name,
                    num_args: arity(f.param_signatures@),
                    deterministic: f.is_deterministic,
                },
            );
        }
    }
    if 0 <= k < ext.aggregates@.len() {
        let f = ext.aggregates@[k];
        if named_by(f.canonical_name@, f.aliases@, name) {
            lemma_aggregates_of_plan(
                plan,
                n,
                e,
                k,
                ListedFn { name, num_args: arity(f.param_signatures@), deterministic: false },
            );
        }
    }
    if 0 <= k < ext.window_functions@.len() {
        let f = ext.window_functions@[k];
        if named_by(f.canonical_name@, f.aliases@, name) {
            lemma_windows_of_plan(
                plan,
                entries,
                n,
                e,
                k,
                ListedFn { name, num_args: window_arity(f, entries), deterministic: false },
            );
        }
    }
    if 0 <= k < ext.table_functions@.len() {
        let f = ext.table_functions@[k];
        if named_by(f.canonical_name@, f.aliases@, name) {
            lemma_tables_of_plan(
                plan,
                n,
                e,
                k,
                ListedFn { name, num_args: 0, deterministic: false },
            );
        }
    }
}

proof fn lemma_scalars_kept(base: Seq<ListedFn>, v: Seq<ScalarFn>, n: nat, x: ListedFn)
    requires
        base.contains(x),
    ensures
        with_scalars(base, v, n).contains(x),
    decreases n,
{
    if n > 0 {
        lemma_scalars_kept(base, v, (n - 1) as nat, x);
        let f = v[n - 1];
        lemma_names_listed(
            with_scalars(base, v, (n - 1) as nat),
            f.canonical_name@,
            f.aliases@,
            arity(f.param_signatures@),
            f.is_deterministic,
            x,
        );
    }
}

proof fn lemma_scalars_among(base: Seq<ListedFn>, v: Seq<ScalarFn>, n: nat, k: int, x: ListedFn)
    requires
        0 <= k < n <= v.len(),
        named_by(v[k].canonical_name@, v[k].aliases@, x.name),
        x.num_args == arity(v[k].param_signatures@),
        x.deterministic == v[k].is_deterministic,
    ensures
        with_scalars(base, v, n).contains(x),
    decreases n,
{
    let f = v[n - 1];
    if k < n - 1 {
        lemma_scalars_among(base, v, (n - 1) as nat, k, x);
    }
    lemma_names_listed(
        with_scalars(base, v, (n - 1) as nat),
        f.canonical_name@,
        f.aliases@,
        arity(f.param_signatures@),
        f.is_deterministic,
        x,
    );
}

proof fn lemma_scalars_of_plan(plan: BridgePlan, n: nat, e: int, k: int, x: ListedFn)
    requires
        0 <= e < n <= plan.extensions@.len(),
        0 <= k < plan.extensions@[e].scalars@.len(),
        named_by(
            plan.extensions@[e].scalars@[k].canonical_name@,
            plan.extensions@[e].scalars@[k].aliases@,
            x.name,
        ),
        x.num_args == arity(plan.extensions@[e].scalars@[k].param_signatures@),
        x.deterministic == plan.extensions@[e].scalars@[k].is_deterministic,
    ensures
        scalars_prefix(plan, n).contains(x),
    decreases n,
{
    let v = plan.extensions@[n - 1].scalars@;
    let before = scalars_prefix(plan, (n - 1) as nat);
    if e < n - 1 {
        lemma_scalars_of_plan(plan, (n - 1) as nat, e, k, x);
        lemma_scalars_kept(before, v, v.len(), x);
    } else {
        lemma_scalars_among(before, v, v.len(), k, x);
    }
}

proof fn lemma_aggregates_kept(base: Seq<ListedFn>, v: Seq<AggregateFn>, n: nat, x: ListedFn)
    requires
        base.contains(x),
    ensures
        with_aggregates(base, v, n).contains(x),
    decreases n,
{
    if n > 0 {
        lemma_aggregates_kept(base, v, (n - 1) as nat, x);
        let f = v[n - 1];
        lemma_names_listed(
            with_aggregates(base, v, (n - 1) as nat),
            f.canonical_name@,
            f.aliases@,
            arity(f.param_signatures@),
            false,
            x,
        );
    }
}

proof fn lemma_aggregates_among(base: Seq<ListedFn>, v: Seq<AggregateFn>, n: nat, k: int, x: ListedFn)
    requires
        0 <= k < n <= v.len(),
        named_by(v[k].canonical_name@, v[k].aliases@, x.name),
        x.num_args == arity(v[k].param_signatures@),
        x.deterministic == false,
    ensures
        with_aggregates(base, v, n).contains(x),
    decreases n,
{
    let f = v[n - 1];
    if k < n - 1 {
        lemma_aggregates_among(base, v, (n - 1) as nat, k, x);
    }
    lemma_names_listed(
        with_aggregates(base, v, (n - 1) as nat),
        f.canonical_name@,
        f.aliases@,
        arity(f.param_signatures@),
        false,
        x,
    );
}

proof fn lemma_aggregates_of_plan(plan: BridgePlan, n: nat, e: int, k: int, x: ListedFn)
    requires
        0 <= e < n <= plan.extensions@.len(),
        0 <= k < plan.extensions@[e].aggregates@.len(),
        named_by(
            plan.extensions@[e].aggregates@[k].canonical_name@,
            plan.extensions@[e].aggregates@[k].aliases@,
            x.name,
        ),
        x.num_args == arity(plan.extensions@[e].aggregates@[k].param_signatures@),
        x.deterministic == false,
    ensures
        aggregates_prefix(plan, n).contains(x),
    decreases n,
{
    let v = plan.extensions@[n - 1].aggregates@;
    let before = aggregates_prefix(plan, (n - 1) as nat);
    if e < n - 1 {
        lemma_aggregates_of_plan(plan, (n - 1) as nat, e, k, x);
        lemma_aggregates_kept(before, v, v.len(), x);
    } else {
        lemma_aggregates_among(before, v, v.len(), k, x);
    }
}

proof fn lemma_windows_kept(base: Seq<ListedFn>, v: Seq<WindowFn>, entries: Seq<WindowEntry>, n: nat, x: ListedFn)
    requires
        base.contains(x),
    ensures
        with_windows(base, v, entries, n).contains(x),
    decreases n,
{
    if n > 0 {
        lemma_windows_kept(base, v, entries, (n - 1) as nat, x);
        let f = v[n - 1];
        lemma_names_listed(
            with_windows(base, v, entries, (n - 1) as nat),
            f.canonical_name@,
            f.aliases@,
            window_arity(f, entries),
            false,
            x,
        );
    }
}

proof fn lemma_windows_among(base: Seq<ListedFn>, v: Seq<WindowFn>, entries: Seq<WindowEntry>, n: nat, k: int, x: ListedFn)
    requires
        0 <= k < n <= v.len(),
        named_by(v[k].canonical_name@, v[k].aliases@, x.name),
        x.num_args == window_arity(v[k], entries),
        x.deterministic == false,
    ensures
        with_windows(base, v, entries, n).contains(x),
    decreases n,
{
    let f = v[n - 1];
    if k < n - 1 {
        lemma_windows_among(base, v, entries, (n - 1) as nat, k, x);
    }
    lemma_names_listed(
        with_windows(base, v, entries, (n - 1) as nat),
        f.canonical_name@,
        f.aliases@,
        window_arity(f, entries),
        false,
        x,
    );
}

proof fn lemma_windows_of_plan(plan: BridgePlan, entries: Seq<WindowEntry>, n: nat, e: int, k: int, x: ListedFn)
    requires
        0 <= e < n <= plan.extensions@.len(),
        0 <= k < plan.extensions@[e].window_functions@.len(),
        named_by(
            plan.extensions@[e].window_functions@[k].canonical_name@,
            plan.extensions@[e].window_functions@[k].aliases@,
            x.name,
        ),
        x.num_args == window_arity(plan.extensions@[e].window_functions@[k], entries),
        x.deterministic == false,
    ensures
        windows_prefix(plan, entries, n).contains(x),
    decreases n,
{
    let v = plan.extensions@[n - 1].window_functions@;
    let before = windows_prefix(plan, entries, (n - 1) as nat);
    if e < n - 1 {
        lemma_windows_of_plan(plan, entries, (n - 1) as nat, e, k, x);
        lemma_windows_kept(before, v, entries, v.len(), x);
    } else {
        lemma_windows_among(before, v, entries, v.len(), k, x);
    }
}

proof fn lemma_tables_kept(base: Seq<ListedFn>, v: Seq<TableFn>, n: nat, x: ListedFn)
    requires
        base.contains(x),
    ensures
        with_tables(base, v, n).contains(x),
    decreases n,
{
    if n > 0 {
        lemma_tables_kept(base, v, (n - 1) as nat, x);
        let f = v[n - 1];
        lemma_names_listed(
            with_tables(base, v, (n - 1) as nat),
            f.canonical_name@,
            f.aliases@,
            0,
            false,
            x,
        );
    }
}

proof fn lemma_tables_among(base: Seq<ListedFn>, v: Seq<TableFn>, n: nat, k: int, x: ListedFn)
    requires
        0 <= k < n <= v.len(),
        named_by(v[k].canonical_name@, v[k].aliases@, x.name),
        x.num_args == 0,
        x.deterministic == false,
    ensures
        with_tables(base, v, n).contains(x),
    decreases n,
{
    let f = v[n - 1];
    if k < n - 1 {
        lemma_tables_among(base, v, (n - 1) as nat, k, x);
    }
    lemma_names_listed(
        with_tables(base, v, (n - 1) as nat),
        f.canonical_name@,
        f.aliases@,
        0,
        false,
        x,
    );
}

proof fn lemma_tables_of_plan(plan: BridgePlan, n: nat, e: int, k: int, x: ListedFn)
    requires
        0 <= e < n <= plan.extensions@.len(),
        0 <= k < plan.extensions@[e].table_functions@.len(),
        named_by(
            plan.extensions@[e].table_functions@[k].canonical_name@,
            plan.extensions@[e].table_functions@[k].aliases@,
            x.name,
        ),
        x.num_args == 0,
        x.deterministic == false,
    ensures
        tables_prefix(plan, n).contains(x),
    decreases n,
{
    let v = plan.extensions@[n - 1].table_functions@;
    let before = tables_prefix(plan, (n - 1) as nat);
    if e < n - 1 {
        lemma_tables_of_plan(plan, (n - 1) as nat, e, k, x);
        lemma_tables_kept(before, v, v.len(), x);
    } else {
        lemma_tables_among(before, v, v.len(), k, x);
    }
}

} // verus!
