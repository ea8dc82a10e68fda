//! The functions that compute window functions over a whole partition.

use vstd::prelude::*;
use vstd::string::*;

use crate::describe;
use crate::ir::{self, ParamShape, WindowEntry, WindowReturn};
use crate::sqlite::lib_templates as t;
use crate::sqlite::listing::{self, Listed, ListedFn};
use crate::text::{self, cat, fill1, fill2, fill3};
use crate::words::{self, decimal_u64, decimal_usize, join};

verus! {

/// Whether a window function can take an extra argument of this shape.
pub open spec fn window_extra_wired(p: ParamShape) -> bool {
    match p {
        ParamShape::F64
        | ParamShape::S32
        | ParamShape::S64
        | ParamShape::U32
        | ParamShape::U64
        | ParamShape::Bool
        | ParamShape::Text
        | ParamShape::Blob => true,
        _ => false,
    }
}

fn is_window_extra_wired(p: &ParamShape) -> (r: bool)
    ensures
        r == window_extra_wired(*p),
{
    match p {
        ParamShape::F64
        | ParamShape::S32
        | ParamShape::S64
        | ParamShape::U32
        | ParamShape::U64
        | ParamShape::Bool
        | ParamShape::Text
        | ParamShape::Blob => true,
        _ => false,
    }
}

/// The position of the first extra argument, at `k` or later, of a shape that window functions
/// do not take, or the number of extra arguments.
pub open spec fn unwired_from(extras: Seq<ParamShape>, k: int) -> int
    decreases extras.len() - k,
{
    if k >= extras.len() || !window_extra_wired(extras[k]) {
        k
    } else {
        unwired_from(extras, k + 1)
    }
}

fn find_unwired(extras: &Vec<ParamShape>) -> (r: usize)
    ensures
        r <= extras@.len(),
        r == unwired_from(extras@, 0),
{
    let mut k: usize = 0;
    while k < extras.len() && is_window_extra_wired(&extras[k])
        invariant
            k <= extras@.len(),
            unwired_from(extras@, 0) == unwired_from(extras@, k as int),
        decreases extras.len() - k,
    {
        k = k + 1;
    }
    k
}

/// The template that takes an extra argument out of the first row.
pub open spec fn window_extra_template(p: ParamShape) -> Seq<char> {
    match p {
        ParamShape::F64 => t::EXTRA_F64@,
        ParamShape::S32 => t::EXTRA_S32@,
        ParamShape::S64 => t::EXTRA_S64@,
        ParamShape::U32 => t::EXTRA_U32@,
        ParamShape::U64 => t::EXTRA_U64@,
        ParamShape::Bool => t::EXTRA_BOOL@,
        ParamShape::Text => t::EXTRA_TEXT@,
        ParamShape::Blob => t::EXTRA_BLOB@,
        _ => ""@,
    }
}

fn pick_window_extra_template(p: &ParamShape) -> (r: &'static str)
    ensures
        r@ == window_extra_template(*p),
{
    match p {
        ParamShape::F64 => t::EXTRA_F64,
        ParamShape::S32 => t::EXTRA_S32,
        ParamShape::S64 => t::EXTRA_S64,
        ParamShape::U32 => t::EXTRA_U32,
        ParamShape::U64 => t::EXTRA_U64,
        ParamShape::Bool => t::EXTRA_BOOL,
        ParamShape::Text => t::EXTRA_TEXT,
        ParamShape::Blob => t::EXTRA_BLOB,
        _ => "",
    }
}

/// The declarations of the first `n` extra arguments. The value of the row stands before them.
pub open spec fn window_decls(extras: Seq<ParamShape>, name: Seq<char>, n: nat) -> Seq<char>
    decreases n,
{
    if n == 0 {
        Seq::empty()
    } else {
        window_decls(extras, name, (n - 1) as nat) + text::fill(
            window_extra_template(extras[n - 1]),
            seq![
                ("j"@, words::decimal((n - 1) as nat)),
                ("arg_index"@, words::decimal(n)),
                ("name"@, name),
            ],
        )
    }
}

/// The expressions that hand the extra arguments over: texts and blobs by reference.
pub open spec fn window_extras(extras: Seq<ParamShape>) -> Seq<Seq<char>> {
    Seq::new(
        extras.len(),
        |j: int|
            if extras[j] is Text || extras[j] is Blob {
                "&extra"@ + words::decimal(j as nat)
            } else {
                "extra"@ + words::decimal(j as nat)
            },
    )
}

/// The text that follows the geometries in the call.
pub open spec fn window_call_extras(extras: Seq<ParamShape>) -> Seq<char> {
    if extras.len() == 0 {
        Seq::empty()
    } else {
        ", "@ + words::joined(window_extras(extras), ", "@)
    }
}

fn render_window_decls(extras: &Vec<ParamShape>, name: &str) -> (r: String)
    requires
        extras@.len() < usize::MAX,
    ensures
        r@ == window_decls(extras@, name@, extras@.len()),
{
    let mut r = String::new();
    let mut j: usize = 0;
    while j < extras.len()
        invariant
            j <= extras@.len() < usize::MAX,
            r@ == window_decls(extras@, name@, j as nat),
        decreases extras.len() - j,
    {
        let number = decimal_usize(j);
        let index = decimal_usize(j + 1);
        let line = fill3(
            pick_window_extra_template(&extras[j]),
            "j",
            number.as_str(),
            "arg_index",
            index.as_str(),
            "name",
            name,
        );
        r.append(line.as_str());
        j = j + 1;
    }
    r
}

fn render_window_call_extras(extras: &Vec<ParamShape>) -> (r: String)
    ensures
        r@ == window_call_extras(extras@),
{
    if extras.len() == 0 {
        return String::new();
    }
    let mut list: Vec<String> = Vec::new();
    let mut j: usize = 0;
    while j < extras.len()
        invariant
            j <= extras@.len(),
            list@.len() == j,
            forall|k: int| 0 <= k < j ==> #[trigger] list@[k]@ == window_extras(extras@)[k],
        decreases extras.len() - j,
    {
        let number = decimal_usize(j);
        let prefix = match &extras[j] {
            ParamShape::Text => "&extra",
            ParamShape::Blob => "&extra",
            _ => "extra",
        };
        list.push(cat(prefix, number.as_str()));
        j = j + 1;
    }
    assert(text::strs(list@) =~= window_extras(extras@));
    let joined = join(&list, ", ");
    cat(", ", joined.as_str())
}

/// The name of the function that computes the window function of a number.
pub open spec fn compute_name(id: nat) -> Seq<char> {
    "compute_window_"@ + words::decimal(id)
}

/// The name of the function that computes the window function of a number.
pub fn window_compute_fn_name(id: u64) -> (r: String)
    ensures
        r@ == compute_name(id as nat),
{
    let number = decimal_u64(id);
    cat("compute_window_", number.as_str())
}

/// Different window functions are computed by functions of different names.
pub proof fn law_compute_names_distinct(a: nat, b: nat)
    requires
        compute_name(a) == compute_name(b),
    ensures
        a == b,
{
    let p = "compute_window_"@;
    assert(words::decimal(a) =~= compute_name(a).subrange(
        p.len() as int,
        compute_name(a).len() as int,
    ));
    assert(words::decimal(b) =~= compute_name(b).subrange(
        p.len() as int,
        compute_name(b).len() as int,
    ));
    words::law_decimal_injective(a, b);
}

/// How the labels become SQL values.
pub open spec fn labels_template(r: WindowReturn) -> Seq<char> {
    match r {
        WindowReturn::OptionU32 => t::LABELS_OPTION_U32@,
        WindowReturn::U32 => t::LABELS_U32@,
        WindowReturn::GeomBlob => t::LABELS_GEOM@,
    }
}

/// What a window function yields, in words.
pub open spec fn return_word(r: WindowReturn) -> Seq<char> {
    match r {
        WindowReturn::OptionU32 => "OptionU32"@,
        WindowReturn::U32 => "U32"@,
        WindowReturn::GeomBlob => "GeomBlob"@,
    }
}

/// The function that computes a window function over a partition: decode the geometry of each
/// row, take the extra arguments from the first row, call, and turn the labels into SQL values.
pub open spec fn compute_window(entry: WindowEntry, id: nat) -> Seq<char> {
    let name = entry.sql_name@;
    let extras = entry.shape.extra_args@;
    text::fill(
        t::COMPUTE_WINDOW@,
        seq![
            ("name"@, name),
            ("id"@, words::decimal(id)),
            ("returns_dbg"@, return_word(entry.shape.returns)),
            ("compute_fn"@, compute_name(id)),
            ("extras"@, window_decls(extras, name, extras.len())),
            ("module"@, entry.shape.wit_module@),
            ("func"@, entry.shape.wit_func@),
            ("call_extras_lit"@, window_call_extras(extras)),
            (
                "map_err"@,
                if entry.shape.fallible {
                    text::fill(t::MAP_ERR@, seq![("name"@, name)])
                } else {
                    Seq::empty()
                },
            ),
            ("row_to_sqlvalue"@, labels_template(entry.shape.returns)),
        ],
    )
}

fn render_compute_window(entry: &WindowEntry, id: u64) -> (r: String)
    requires
        entry.shape.extra_args@.len() < usize::MAX,
    ensures
        r@ == compute_window(*entry, id as nat),
{
    let name = entry.sql_name.as_str();
    let number = decimal_u64(id);
    let (yields, labels) = match entry.shape.returns {
        WindowReturn::OptionU32 => ("OptionU32", t::LABELS_OPTION_U32),
        WindowReturn::U32 => ("U32", t::LABELS_U32),
        WindowReturn::GeomBlob => ("GeomBlob", t::LABELS_GEOM),
    };
    let compute_fn = window_compute_fn_name(id);
    let extras = render_window_decls(&entry.shape.extra_args, name);
    let call_extras = render_window_call_extras(&entry.shape.extra_args);
    let map_err = if entry.shape.fallible {
        fill1(t::MAP_ERR, "name", name)
    } else {
        String::new()
    };
    let holes: Vec<(&str, &str)> = vec![
        ("name", name),
        ("id", number.as_str()),
        ("returns_dbg", yields),
        ("compute_fn", compute_fn.as_str()),
        ("extras", extras.as_str()),
        ("module", entry.shape.wit_module.as_str()),
        ("func", entry.shape.wit_func.as_str()),
        ("call_extras_lit", call_extras.as_str()),
        ("map_err", map_err.as_str()),
        ("row_to_sqlvalue", labels),
    ];
    assert(text::bindings(holes@) =~= seq![
        ("name"@, name@),
        ("id"@, number@),
        ("returns_dbg"@, yields@),
        ("compute_fn"@, compute_fn@),
        ("extras"@, extras@),
        ("module"@, entry.shape.wit_module@),
        ("func"@, entry.shape.wit_func@),
        ("call_extras_lit"@, call_extras@),
        ("map_err"@, map_err@),
        ("row_to_sqlvalue"@, labels@),
    ]);
    text::fill_with(t::COMPUTE_WINDOW, &holes)
}

/// The number of the arm of the window function at `k`, where it gets one.
pub open spec fn window_arm(entries: Seq<WindowEntry>, windows: Seq<ListedFn>, k: nat) -> Option<nat> {
    listing::arm_at(
        Seq::empty(),
        ir::window_names(entries),
        windows,
        listing::WINDOW_BASE as nat,
        k,
    )
}

/// Whether the window function at `k` gets an arm but has an extra argument that none takes.
pub open spec fn window_refused(entries: Seq<WindowEntry>, windows: Seq<ListedFn>, k: int) -> bool {
    window_arm(entries, windows, k as nat) is Some && unwired_from(
        entries[k].shape.extra_args@,
        0,
    ) < entries[k].shape.extra_args@.len()
}

/// The position of the first window function, at `k` or later, that is refused, or their number.
pub open spec fn first_refused(entries: Seq<WindowEntry>, windows: Seq<ListedFn>, k: int) -> int
    decreases entries.len() - k,
{
    if k >= entries.len() || window_refused(entries, windows, k) {
        k
    } else {
        first_refused(entries, windows, k + 1)
    }
}

/// The functions that compute the first `n` window functions.
pub open spec fn computes(entries: Seq<WindowEntry>, windows: Seq<ListedFn>, n: nat) -> Seq<char>
    decreases n,
{
    if n == 0 {
        Seq::empty()
    } else {
        computes(entries, windows, (n - 1) as nat) + match window_arm(
            entries,
            windows,
            (n - 1) as nat,
        ) {
            Some(id) => compute_window(entries[n - 1], id),
            None => Seq::empty(),
        }
    }
}

/// The functions that compute window functions, one for each that has an arm. A window function
/// that is refused leaves a note in place of all of them.
pub open spec fn compute_helpers(entries: Seq<WindowEntry>, windows: Seq<ListedFn>) -> Seq<char> {
    let j = first_refused(entries, windows, 0);
    if entries.len() == 0 {
        Seq::empty()
    } else if j < entries.len() {
        let extras = entries[j].shape.extra_args@;
        text::fill(
            t::EXTRA_UNWIRED@,
            seq![
                ("name"@, entries[j].sql_name@),
                ("shape"@, describe::param_words(extras[unwired_from(extras, 0)])),
            ],
        )
    } else {
        "\n"@ + computes(entries, windows, entries.len())
    }
}

/// Writes the functions that compute window functions.
pub fn emit_window_compute_helpers(entries: &Vec<WindowEntry>, windows: &Vec<Listed>) -> (r: String)
    requires
        listing::entries_fit(entries@),
        listing::ids_fit(listing::listed(windows@), listing::WINDOW_BASE as nat),
    ensures
        r@ == compute_helpers(entries@, listing::listed(windows@)),
{
    if entries.len() == 0 {
        return String::new();
    }
    let ghost all = listing::listed(windows@);
    let ghost names = ir::window_names(entries@);
    let ghost base = listing::WINDOW_BASE as nat;
    let mut seen: Vec<u64> = Vec::new();
    let mut out = String::new();
    let mut k: usize = 0;
    assert(listing::numbers(seen@) =~= Seq::<nat>::empty());
    while k < entries.len()
        invariant
            k <= entries@.len(),
            entries@.len() > 0,
            all == listing::listed(windows@),
            names == ir::window_names(entries@),
            base == listing::WINDOW_BASE as nat,
            listing::entries_fit(entries@),
            listing::ids_fit(all, base),
            listing::numbers(seen@) == listing::arm_ids(Seq::empty(), names, all, base, k as nat),
            first_refused(entries@, all, 0) == first_refused(entries@, all, k as int),
            out@ == computes(entries@, all, k as nat),
        decreases entries.len() - k,
    {
        let entry = &entries[k];
        assert(names[k as int] == entry.sql_name@);
        assert(entries@[k as int].shape.extra_args@.len() < i32::MAX);
        match listing::next_arm(&mut seen, windows, listing::WINDOW_BASE, entry.sql_name.as_str()) {
            Some(id) => {
                let extras = &entry.shape.extra_args;
                let j = find_unwired(extras);
                if j < extras.len() {
                    assert(window_refused(entries@, all, k as int));
                    let shape = describe::describe_param(&extras[j]);
                    return fill2(
                        t::EXTRA_UNWIRED,
                        "name",
                        entry.sql_name.as_str(),
                        "shape",
                        shape.as_str(),
                    );
                }
                let one = render_compute_window(entry, id);
                out.append(one.as_str());
            },
            None => {
                assert(out@ + Seq::<char>::empty() =~= out@);
            },
        }
        k = k + 1;
    }
    cat("\n", out.as_str())
}

} // verus!
