//! The files of a bridge crate.

use vstd::prelude::*;
use vstd::string::*;

use crate::dynlink::table_sigs::{
    self, find_sig, load_table_sigs, TableRow, TableSig, TableSigError, TableSigView, TableSigs,
};
use crate::dynlink::templates as t;
use crate::order;
use crate::packages;
use crate::text::{self, cat, cat3, chars_of, fill1, fill2, fill4, same};
use crate::words::{self, decimal_u64, decimal_usize, escape_quotes, join, text_of_range, to_dashed};

verus! {

// ─── Options and catalog ───

/// What a bridge is emitted for.
pub struct DynlinkOptions {
    /// The provider that the bridge resolves when it is instantiated.
    pub provider_id: String,
    /// The name of the extension as SQL sees it.
    pub sub_ext: String,
    /// The extension that it is a part of.
    pub extension_root: String,
    /// The leaf or umbrella of the catalog whose functions the bridge offers.
    pub target: String,
    /// The interface database with the signatures of table functions.
    pub interface_sqlite: Option<String>,
}

/// The kind of a function.
#[derive(Clone, Copy, PartialEq, Eq, Structural)]
pub enum FnKind {
    Scalar,
    Aggregate,
    Window,
    Table,
}

/// Another spelling of a function's name.
pub struct Alias {
    pub kind: String,
    pub alias: String,
    pub canonical: String,
}

/// A leaf or umbrella of a catalog with the functions that it stands for.
pub struct Target {
    pub id: String,
    pub functions: Vec<(FnKind, String)>,
}

/// The catalog of an extension.
pub struct Catalog {
    pub extension: String,
    pub version: String,
    pub aliases: Vec<Alias>,
    pub targets: Vec<Target>,
}

/// Why a bridge could not be emitted.
pub enum EmitError {
    /// The catalog has no such target.
    UnknownTarget { target: String },
    /// The signatures of table functions could not be read.
    Signatures(TableSigError),
}

/// The files of a bridge crate, and what there is to warn of.
pub struct BridgeCrate {
    pub cargo_toml: String,
    pub world_wit: String,
    pub lib_rs: String,
    pub readme: String,
    /// How many table functions have more than one overload, of which the first counts.
    pub overloaded: usize,
    /// How many table functions have no signature and get an opaque schema.
    pub opaque: usize,
    /// Whether table functions get opaque schemas for want of an interface database.
    pub without_interface: bool,
}

/// The SQLite type for a type token: `BLOB` for tokens that are not known.
pub open spec fn sqlite_type(token: Seq<char>) -> Seq<char> {
    if token == "boolean"@ || token == "int64"@ {
        "INTEGER"@
    } else if token == "float64"@ {
        "REAL"@
    } else if token == "text"@ {
        "TEXT"@
    } else {
        "BLOB"@
    }
}

/// Maps a type token to a SQLite type.
pub fn token_to_sqlite_type(token: &str) -> (r: &'static str)
    ensures
        r@ == sqlite_type(token@),
{
    if same(token, "boolean") || same(token, "int64") {
        "INTEGER"
    } else if same(token, "float64") {
        "REAL"
    } else if same(token, "text") {
        "TEXT"
    } else {
        "BLOB"
    }
}

// ─── Names ───

/// The name of the bridge crate.
pub fn crate_name_for(opts: &DynlinkOptions) -> (r: String)
    ensures
        r@ == words::dashed(opts.sub_ext@) + "-sqlite-bridge-dynlink"@,
{
    let sub = to_dashed(opts.sub_ext.as_str());
    cat(sub.as_str(), "-sqlite-bridge-dynlink")
}

/// The parts of `s` between hyphens, from position `k` on; the first of them began at `start`.
pub open spec fn parts_from(s: Seq<char>, start: int, k: int) -> Seq<Seq<char>>
    decreases s.len() - k,
{
    if k >= s.len() {
        seq![s.subrange(start, s.len() as int)]
    } else if s[k] == '-' {
        seq![s.subrange(start, k)] + parts_from(s, k + 1, k + 1)
    } else {
        parts_from(s, start, k + 1)
    }
}

/// The parts of `s` between hyphens.
pub open spec fn hyphen_parts(s: Seq<char>) -> Seq<Seq<char>> {
    parts_from(s, 0, 0)
}

fn split_hyphens(s: &str) -> (r: Vec<String>)
    ensures
        text::strs(r@) == hyphen_parts(s@),
{
    let cs = chars_of(s);
    let mut r: Vec<String> = Vec::new();
    let mut start: usize = 0;
    let mut k: usize = 0;
    assert(text::strs(r@) + parts_from(s@, 0, 0) =~= parts_from(s@, 0, 0));
    while k < cs.len()
        invariant
            start <= k <= cs@.len(),
            cs@ == s@,
            text::strs(r@) + parts_from(s@, start as int, k as int) == hyphen_parts(s@),
        decreases cs.len() - k,
    {
        if cs[k] == '-' {
            let ghost was = text::strs(r@);
            let part = text_of_range(&cs, start, k);
            let ghost added = part@;
            r.push(part);
            proof {
                assert(text::strs(r@) =~= was.push(added));
                assert(was.push(added) + parts_from(s@, k + 1, k + 1) =~= was + (seq![added]
                    + parts_from(s@, k + 1, k + 1)));
            }
            start = k + 1;
        }
        k = k + 1;
    }
    let ghost was = text::strs(r@);
    let part = text_of_range(&cs, start, cs.len());
    let ghost added = part@;
    r.push(part);
    proof {
        assert(text::strs(r@) =~= was + seq![added]);
    }
    r
}

/// The word for a digit.
pub open spec fn digit_word(digit: char) -> Seq<char> {
    match digit {
        '0' => "zero"@,
        '1' => "one"@,
        '2' => "two"@,
        '3' => "three"@,
        '4' => "four"@,
        '5' => "five"@,
        '6' => "six"@,
        '7' => "seven"@,
        '8' => "eight"@,
        _ => "nine"@,
    }
}

fn pick_digit_word(digit: char) -> (r: &'static str)
    ensures
        r@ == digit_word(digit),
{
    match digit {
        '0' => "zero",
        '1' => "one",
        '2' => "two",
        '3' => "three",
        '4' => "four",
        '5' => "five",
        '6' => "six",
        '7' => "seven",
        '8' => "eight",
        _ => "nine",
    }
}

/// A part of a package name in a form that does not begin with a digit: a word stands for a
/// leading digit, so that `2` becomes `two` and `3d` becomes `threed`.
pub open spec fn worded(part: Seq<char>) -> Seq<char> {
    if part.len() > 0 && '0' <= part[0] && part[0] <= '9' {
        digit_word(part[0]) + part.skip(1)
    } else {
        part
    }
}

fn to_worded(part: &str) -> (r: String)
    ensures
        r@ == worded(part@),
{
    let cs = chars_of(part);
    if cs.len() > 0 && '0' <= cs[0] && cs[0] <= '9' {
        let rest = text_of_range(&cs, 1, cs.len());
        assert(rest@ =~= part@.skip(1));
        cat(pick_digit_word(cs[0]), rest.as_str())
    } else {
        part.to_owned()
    }
}

/// The WIT package name for an extension.
pub open spec fn pkg_name(sub_ext: Seq<char>) -> Seq<char> {
    words::joined(
        hyphen_parts(words::dashed(sub_ext)).map_values(|p: Seq<char>| worded(p)),
        "-"@,
    )
}

/// Writes an extension's name as a WIT package name: hyphens between the parts, and no part
/// that begins with a digit.
pub fn kebab_safe_pkg_name(sub_ext: &str) -> (r: String)
    ensures
        r@ == pkg_name(sub_ext@),
{
    let raw = to_dashed(sub_ext);
    let parts = split_hyphens(raw.as_str());
    let ghost ps = hyphen_parts(words::dashed(sub_ext@));
    let mut out: Vec<String> = Vec::new();
    let mut k: usize = 0;
    while k < parts.len()
        invariant
            k <= parts@.len(),
            text::strs(parts@) == ps,
            out@.len() == k,
            forall|j: int| 0 <= j < k ==> #[trigger] out@[j]@ == worded(ps[j]),
        decreases parts.len() - k,
    {
        assert(ps[k as int] == parts@[k as int]@);
        out.push(to_worded(parts[k].as_str()));
        k = k + 1;
    }
    assert(ps.len() == parts@.len());
    assert(text::strs(out@) =~= ps.map_values(|p: Seq<char>| worded(p)));
    join(&out, "-")
}

// ─── Small files ───

/// The manifest of the bridge crate.
pub fn cargo_toml(crate_name: &str, version: &str) -> (r: String)
    ensures
        r@ == text::fill(
            t::CARGO_TOML@,
            seq![("crate_name"@, crate_name@), ("version"@, version@)],
        ),
{
    fill2(t::CARGO_TOML, "crate_name", crate_name, "version", version)
}

/// The line of the world that exports the dispatch of aggregates and windows, where there are
/// some.
pub open spec fn aggregate_export(has_aggs: bool) -> Seq<char> {
    if has_aggs {
        t::AGGREGATE_EXPORT@
    } else {
        Seq::empty()
    }
}

/// The line of the world that exports the dispatch of virtual tables, where there are some.
pub open spec fn vtab_export(has_tables: bool) -> Seq<char> {
    if has_tables {
        t::VTAB_EXPORT@
    } else {
        Seq::empty()
    }
}

/// The WIT world of the bridge up to what it exports only where there is something to dispatch.
pub open spec fn world_start(sub_ext: Seq<char>) -> Seq<char> {
    text::fill(t::WORLD_START@, seq![("pkg"@, pkg_name(sub_ext))])
}

/// The WIT world of the bridge: aggregates and virtual tables are exported where there are some.
pub open spec fn world(sub_ext: Seq<char>, has_aggs: bool, has_tables: bool) -> Seq<char> {
    world_start(sub_ext) + aggregate_export(has_aggs) + vtab_export(has_tables) + t::WORLD_END@
}

/// Writes the WIT world of the bridge.
pub fn world_wit(sub_ext: &str, has_aggs: bool, has_tables: bool) -> (r: String)
    ensures
        r@ == world(sub_ext@, has_aggs, has_tables),
{
    let pkg = kebab_safe_pkg_name(sub_ext);
    let mut r = fill1(t::WORLD_START, "pkg", pkg.as_str());
    assert(r@ + Seq::<char>::empty() =~= r@);
    if has_aggs {
        r.append(t::AGGREGATE_EXPORT);
    }
    assert(r@ + Seq::<char>::empty() =~= r@);
    if has_tables {
        r.append(t::VTAB_EXPORT);
    }
    r.append(t::WORLD_END);
    r
}

/// The read-me of the bridge crate.
pub fn readme(crate_name: &str, provider_id: &str, sub_ext: &str, target: &str) -> (r: String)
    ensures
        r@ == text::fill(
            t::README@,
            seq![
                ("crate_name"@, crate_name@),
                ("provider_id"@, provider_id@),
                ("sub_ext"@, sub_ext@),
                ("target"@, target@),
            ],
        ),
{
    fill4(
        t::README,
        "crate_name",
        crate_name,
        "provider_id",
        provider_id,
        "sub_ext",
        sub_ext,
        "target",
        target,
    )
}

// ─── Functions by kind ───

/// The names of the functions of a kind among the first `n`.
pub open spec fn kind_names(functions: Seq<(FnKind, String)>, kind: FnKind, n: nat) -> Seq<Seq<char>>
    decreases n,
{
    if n == 0 {
        Seq::empty()
    } else if functions[n - 1].0 == kind {
        kind_names(functions, kind, (n - 1) as nat).push(functions[n - 1].1@)
    } else {
        kind_names(functions, kind, (n - 1) as nat)
    }
}

/// The different names of the functions of a kind, in order: the position of a name is what
/// its id is made of.
pub open spec fn names_of_kind(functions: Seq<(FnKind, String)>, kind: FnKind) -> Seq<Seq<char>> {
    order::sorted_set(kind_names(functions, kind, functions.len()))
}

proof fn lemma_kind_names_len(functions: Seq<(FnKind, String)>, kind: FnKind, n: nat)
    ensures
        kind_names(functions, kind, n).len() <= n,
    decreases n,
{
    if n > 0 {
        lemma_kind_names_len(functions, kind, (n - 1) as nat);
    }
}

fn list_names_of_kind(functions: &Vec<(FnKind, String)>, kind: FnKind) -> (r: Vec<String>)
    ensures
        text::strs(r@) == names_of_kind(functions@, kind),
        r@.len() <= functions@.len(),
{
    let mut out: Vec<String> = Vec::new();
    assert(text::strs(out@) =~= Seq::<Seq<char>>::empty());
    let mut k: usize = 0;
    while k < functions.len()
        invariant
            k <= functions@.len(),
            text::strs(out@) == kind_names(functions@, kind, k as nat),
        decreases functions.len() - k,
    {
        if functions[k].0 == kind {
            let ghost was = text::strs(out@);
            out.push(functions[k].1.clone());
            assert(text::strs(out@) =~= was.push(functions@[k as int].1@));
        }
        k = k + 1;
    }
    let r = order::sorted(&out);
    proof {
        let all = kind_names(functions@, kind, functions@.len());
        lemma_kind_names_len(functions@, kind, functions@.len());
        order::lemma_sorted_prefix_len(all, all.len());
        assert(text::strs(r@).len() == r@.len());
    }
    r
}

/// Whether some function is of the kind.
pub open spec fn has_kind(functions: Seq<(FnKind, String)>, kind: FnKind) -> bool {
    exists|k: int| 0 <= k < functions.len() && (#[trigger] functions[k]).0 == kind
}

fn finds_kind(functions: &Vec<(FnKind, String)>, kind: FnKind) -> (r: bool)
    ensures
        r == has_kind(functions@, kind),
{
    let mut k: usize = 0;
    while k < functions.len()
        invariant
            k <= functions@.len(),
            forall|j: int| 0 <= j < k ==> (#[trigger] functions@[j]).0 != kind,
        decreases functions.len() - k,
    {
        if functions[k].0 == kind {
            return true;
        }
        k = k + 1;
    }
    false
}

/// The id of the first scalar: 0 is never an id.
pub const SCALAR_BASE: u64 = 1;

/// The id of the first aggregate; windows follow the aggregates.
pub const AGGREGATE_BASE: u64 = 1_000_000;

/// The id of the first virtual table.
pub const VTAB_BASE: u64 = 2_000_000;

/// Lines about the first `n` names, each with its id and the name escaped.
pub open spec fn id_lines(template: Seq<char>, names: Seq<Seq<char>>, base: nat, n: nat) -> Seq<char>
    decreases n,
{
    if n == 0 {
        Seq::empty()
    } else {
        id_lines(template, names, base, (n - 1) as nat) + text::fill(
            template,
            seq![
                ("id"@, words::decimal((base + n - 1) as nat)),
                ("escaped"@, words::escaped(names[n - 1])),
            ],
        )
    }
}

fn render_id_lines(template: &str, names: &Vec<String>, base: u64) -> (r: String)
    requires
        base + names@.len() <= u64::MAX,
    ensures
        r@ == id_lines(template@, text::strs(names@), base as nat, names@.len()),
{
    let mut r = String::new();
    let mut k: usize = 0;
    while k < names.len()
        invariant
            k <= names@.len(),
            base + names@.len() <= u64::MAX,
            r@ == id_lines(template@, text::strs(names@), base as nat, k as nat),
        decreases names.len() - k,
    {
        let id = decimal_u64(base + k as u64);
        let escaped = escape_quotes(names[k].as_str());
        let line = fill2(template, "id", id.as_str(), "escaped", escaped.as_str());
        r.append(line.as_str());
        k = k + 1;
    }
    r
}

/// The arms from the first `n` aliases to the names that they stand for. An alias counts where
/// both it and what it stands for are names of scalars or of tables.
pub open spec fn alias_arms(
    aliases: Seq<text::Binding>,
    scalars: Seq<Seq<char>>,
    tables: Seq<Seq<char>>,
    n: nat,
) -> Seq<char>
    decreases n,
{
    if n == 0 {
        Seq::empty()
    } else {
        let before = alias_arms(aliases, scalars, tables, (n - 1) as nat);
        let (alias, canonical) = aliases[n - 1];
        if (scalars.contains(alias) || tables.contains(alias)) && (scalars.contains(canonical)
            || tables.contains(canonical)) {
            before + text::fill(
                t::ALIAS_ARM@,
                seq![("a"@, words::escaped(alias)), ("c"@, words::escaped(canonical))],
            )
        } else {
            before
        }
    }
}

fn render_alias_arms(
    aliases: &Vec<(String, String)>,
    scalars: &Vec<String>,
    tables: &Vec<String>,
) -> (r: String)
    ensures
        r@ == alias_arms(
            packages::pairs(aliases@),
            text::strs(scalars@),
            text::strs(tables@),
            aliases@.len(),
        ),
{
    let ghost all = packages::pairs(aliases@);
    let mut r = String::new();
    let mut k: usize = 0;
    while k < aliases.len()
        invariant
            k <= aliases@.len(),
            all == packages::pairs(aliases@),
            r@ == alias_arms(all, text::strs(scalars@), text::strs(tables@), k as nat),
        decreases aliases.len() - k,
    {
        let alias = aliases[k].0.as_str();
        let canonical = aliases[k].1.as_str();
        assert(all[k as int] == (alias@, canonical@));
        let known = words::has(scalars, alias) || words::has(tables, alias);
        let target_known = words::has(scalars, canonical) || words::has(tables, canonical);
        if known && target_known {
            let a = escape_quotes(alias);
            let c = escape_quotes(canonical);
            let line = fill2(t::ALIAS_ARM, "a", a.as_str(), "c", c.as_str());
            r.append(line.as_str());
        }
        k = k + 1;
    }
    r
}

// ─── Schemas ───

/// The columns of the rows.
pub open spec fn column_parts(columns: Seq<text::Binding>) -> Seq<Seq<char>> {
    columns.map_values(
        |p: text::Binding|
            text::fill(
                t::SCHEMA_COLUMN@,
                seq![("escaped"@, words::escaped(p.0)), ("ty"@, sqlite_type(p.1))],
            ),
    )
}

/// How many hidden columns a function gets: one for each parameter, and at least one.
pub open spec fn hidden_count(params: nat) -> nat {
    if params == 0 {
        1
    } else {
        params
    }
}

/// The hidden columns for `n` arguments.
pub open spec fn hidden_parts(n: nat) -> Seq<Seq<char>> {
    Seq::new(n, |k: int| text::fill(t::SCHEMA_ARG@, seq![("i"@, words::decimal(k as nat))]))
}

/// The parts of a virtual table's schema: the columns of its rows, then the hidden columns.
pub open spec fn schema_parts(columns: Seq<text::Binding>, params: nat) -> Seq<Seq<char>> {
    column_parts(columns) + hidden_parts(hidden_count(params))
}

/// The columns of a table function's rows, where they are known: no signature, one that does
/// not tell them and one that tells of none say nothing.
pub open spec fn known_columns(sig: Option<TableSigView>) -> Option<Seq<text::Binding>> {
    match sig {
        Some(s) => match s.columns {
            Some(c) => if c.len() > 0 {
                Some(c)
            } else {
                None
            },
            None => None,
        },
        None => None,
    }
}

/// The schema of a virtual table; where the columns of its rows are not known it is opaque.
pub open spec fn schema(sig: Option<TableSigView>) -> Seq<char> {
    match known_columns(sig) {
        Some(c) => "CREATE TABLE x("@ + words::joined(
            schema_parts(c, sig->Some_0.params.len()),
            ", "@,
        ) + ")"@,
        None => t::OPAQUE_SCHEMA@,
    }
}

fn list_column_parts(columns: &Vec<(String, String)>) -> (r: Vec<String>)
    ensures
        text::strs(r@) == column_parts(packages::pairs(columns@)),
{
    let ghost all = packages::pairs(columns@);
    let mut r: Vec<String> = Vec::new();
    let mut k: usize = 0;
    while k < columns.len()
        invariant
            k <= columns@.len(),
            all == packages::pairs(columns@),
            r@.len() == k,
            forall|j: int|
                0 <= j < k ==> #[trigger] r@[j]@ == text::fill(
                    t::SCHEMA_COLUMN@,
                    seq![
                        ("escaped"@, words::escaped(all[j].0)),
                        ("ty"@, sqlite_type(all[j].1)),
                    ],
                ),
        decreases columns.len() - k,
    {
        assert(all[k as int] == (columns@[k as int].0@, columns@[k as int].1@));
        let escaped = escape_quotes(columns[k].0.as_str());
        let ty = token_to_sqlite_type(columns[k].1.as_str());
        r.push(fill2(t::SCHEMA_COLUMN, "escaped", escaped.as_str(), "ty", ty));
        k = k + 1;
    }
    assert(text::strs(r@) =~= column_parts(all));
    r
}

fn render_schema(sig: &TableSig) -> (r: String)
    ensures
        r@ == schema(Some(sig@)),
{
    let columns = match &sig.output_columns {
        Some(c) => c,
        None => {
            return t::OPAQUE_SCHEMA.to_owned();
        },
    };
    assert(packages::pairs(columns@).len() == columns@.len());
    if columns.len() == 0 {
        return t::OPAQUE_SCHEMA.to_owned();
    }
    let mut parts = list_column_parts(columns);
    let ghost base = text::strs(parts@);
    let n: usize = if sig.param_tokens.len() == 0 {
        1
    } else {
        sig.param_tokens.len()
    };
    let mut k: usize = 0;
    assert(base + hidden_parts(0) =~= base);
    assert(sig@.params.len() == sig.param_tokens@.len());
    while k < n
        invariant
            k <= n,
            text::strs(parts@) == base + hidden_parts(k as nat),
        decreases n - k,
    {
        let ghost was = text::strs(parts@);
        let number = decimal_usize(k);
        let part = fill1(t::SCHEMA_ARG, "i", number.as_str());
        let ghost added = part@;
        parts.push(part);
        proof {
            assert(text::strs(parts@) =~= was.push(added));
            assert(hidden_parts((k + 1) as nat) =~= hidden_parts(k as nat).push(added));
            assert(base + hidden_parts((k + 1) as nat) =~= (base + hidden_parts(k as nat)).push(
                added,
            ));
        }
        k = k + 1;
    }
    let list = join(&parts, ", ");
    cat3("CREATE TABLE x(", list.as_str(), ")")
}

/// The arm from an id to the schema of a virtual table.
pub open spec fn connect_arm(
    name: Seq<char>,
    sigs: Seq<(Seq<char>, TableSigView)>,
    id: nat,
) -> Seq<char> {
    text::fill(
        t::CONNECT_ARM@,
        seq![
            ("id"@, words::decimal(id)),
            ("schema"@, schema(table_sigs::sig_of(sigs, name, sigs.len()))),
        ],
    )
}

/// The arms from the ids of the first `n` virtual tables to their schemas.
pub open spec fn connect_arms(
    names: Seq<Seq<char>>,
    sigs: Seq<(Seq<char>, TableSigView)>,
    n: nat,
) -> Seq<char>
    decreases n,
{
    if n == 0 {
        Seq::empty()
    } else {
        connect_arms(names, sigs, (n - 1) as nat) + connect_arm(
            names[n - 1],
            sigs,
            (VTAB_BASE + n - 1) as nat,
        )
    }
}

/// How many of the first `n` virtual tables have no signature.
pub open spec fn count_opaque(
    names: Seq<Seq<char>>,
    sigs: Seq<(Seq<char>, TableSigView)>,
    n: nat,
) -> nat
    decreases n,
{
    if n == 0 {
        0
    } else if table_sigs::sig_of(sigs, names[n - 1], sigs.len()) is None {
        count_opaque(names, sigs, (n - 1) as nat) + 1
    } else {
        count_opaque(names, sigs, (n - 1) as nat)
    }
}

fn render_connect_arms(names: &Vec<String>, sigs: &Vec<(String, TableSig)>) -> (r: (String, usize))
    requires
        VTAB_BASE + names@.len() <= u64::MAX,
    ensures
        r.0@ == connect_arms(text::strs(names@), table_sigs::named_sigs(sigs@), names@.len()),
        r.1 == count_opaque(text::strs(names@), table_sigs::named_sigs(sigs@), names@.len()),
{
    let ghost ns = text::strs(names@);
    let ghost ss = table_sigs::named_sigs(sigs@);
    let mut r = String::new();
    let mut opaque: usize = 0;
    let mut k: usize = 0;
    while k < names.len()
        invariant
            k <= names@.len(),
            opaque <= k,
            VTAB_BASE + names@.len() <= u64::MAX,
            ns == text::strs(names@),
            ss == table_sigs::named_sigs(sigs@),
            ss.len() == sigs@.len(),
            r@ == connect_arms(ns, ss, k as nat),
            opaque == count_opaque(ns, ss, k as nat),
        decreases names.len() - k,
    {
        let id = decimal_u64(VTAB_BASE + k as u64);
        assert(ns[k as int] == names@[k as int]@);
        let schema = match find_sig(sigs, names[k].as_str()) {
            Some(sig) => render_schema(sig),
            None => {
                opaque = opaque + 1;
                t::OPAQUE_SCHEMA.to_owned()
            },
        };
        let line = fill2(t::CONNECT_ARM, "id", id.as_str(), "schema", schema.as_str());
        r.append(line.as_str());
        k = k + 1;
    }
    (r, opaque)
}

// ─── The source ───

/// What the source of a bridge is written from.
pub struct LibInputs {
    pub provider_id: String,
    pub extension_root: String,
    pub catalog_extension: String,
    pub version: String,
    pub functions: Vec<(FnKind, String)>,
    pub aliases: Vec<(String, String)>,
    pub sigs: Vec<(String, TableSig)>,
}

/// The parts of the source about aggregates and windows: the import, the list of the manifest,
/// the field of the manifest and the dispatch.
pub struct Surface {
    pub import: Seq<char>,
    pub local: Seq<char>,
    pub field: Seq<char>,
    pub dispatch: Seq<char>,
}

/// What the manifest says of aggregates and windows: windows follow the aggregates in one range
/// of ids.
pub open spec fn aggregate_specs(aggregates: Seq<Seq<char>>, windows: Seq<Seq<char>>) -> Seq<char> {
    id_lines(t::AGGREGATE_SPEC@, aggregates, AGGREGATE_BASE as nat, aggregates.len()) + id_lines(
        t::WINDOW_SPEC@,
        windows,
        (AGGREGATE_BASE + aggregates.len()) as nat,
        windows.len(),
    )
}

/// The arms from the ids of aggregates and windows to their names.
pub open spec fn aggregate_arms(aggregates: Seq<Seq<char>>, windows: Seq<Seq<char>>) -> Seq<char> {
    id_lines(t::ID_ARM@, aggregates, AGGREGATE_BASE as nat, aggregates.len()) + id_lines(
        t::ID_ARM@,
        windows,
        (AGGREGATE_BASE + aggregates.len()) as nat,
        windows.len(),
    )
}

/// What the source says of aggregates and windows: nothing but an empty list where there are
/// none.
pub open spec fn aggregate_surface(aggregates: Seq<Seq<char>>, windows: Seq<Seq<char>>) -> Surface {
    if aggregates.len() == 0 && windows.len() == 0 {
        Surface {
            import: Seq::empty(),
            local: Seq::empty(),
            field: "aggregate_functions: vec![],"@,
            dispatch: Seq::empty(),
        }
    } else {
        Surface {
            import: t::AGGREGATE_IMPORT@,
            local: text::fill(
                t::AGGREGATE_LOCAL@,
                seq![("aggregate_specs"@, aggregate_specs(aggregates, windows))],
            ),
            field: "aggregate_functions,"@,
            dispatch: text::fill(
                t::AGGREGATE_STATE@,
                seq![("aggregate_id_arms"@, aggregate_arms(aggregates, windows))],
            ) + t::AGGREGATE_GUEST@ + t::AGGREGATE_METHODS@,
        }
    }
}

/// What the manifest says of virtual tables.
pub open spec fn vtab_specs(tables: Seq<Seq<char>>) -> Seq<char> {
    id_lines(t::VTAB_SPEC@, tables, VTAB_BASE as nat, tables.len())
}

/// The arms from the ids of virtual tables to their names.
pub open spec fn vtab_arms(tables: Seq<Seq<char>>) -> Seq<char> {
    id_lines(t::ID_ARM@, tables, VTAB_BASE as nat, tables.len())
}

/// What the source says of virtual tables.
pub open spec fn vtab_surface(
    tables: Seq<Seq<char>>,
    sigs: Seq<(Seq<char>, TableSigView)>,
) -> Surface {
    if tables.len() == 0 {
        Surface {
            import: Seq::empty(),
            local: Seq::empty(),
            field: "vtabs: vec![],"@,
            dispatch: Seq::empty(),
        }
    } else {
        Surface {
            import: t::VTAB_IMPORT@,
            local: text::fill(
                t::VTAB_LOCAL@,
                seq![("vtab_specs"@, vtab_specs(tables))],
            ),
            field: "vtabs,"@,
            dispatch: text::fill(t::VTAB_STATE@, seq![("vtab_id_arms"@, vtab_arms(tables))])
                + t::VTAB_GUEST@ + text::fill(
                t::VTAB_METHODS@,
                seq![("vtab_connect_arms"@, connect_arms(tables, sigs, tables.len()))],
            ),
        }
    }
}

struct SurfaceText {
    import: String,
    local: String,
    field: &'static str,
    dispatch: String,
}

spec fn shows(s: SurfaceText, v: Surface) -> bool {
    s.import@ == v.import && s.local@ == v.local && s.field@ == v.field && s.dispatch@ == v.dispatch
}

fn render_aggregate_surface(aggregates: &Vec<String>, windows: &Vec<String>) -> (r: SurfaceText)
    requires
        AGGREGATE_BASE + aggregates@.len() + windows@.len() <= u64::MAX,
    ensures
        shows(r, aggregate_surface(text::strs(aggregates@), text::strs(windows@))),
{
    if aggregates.len() == 0 && windows.len() == 0 {
        return SurfaceText {
            import: String::new(),
            local: String::new(),
            field: "aggregate_functions: vec![],",
            dispatch: String::new(),
        };
    }
    let win_base: u64 = AGGREGATE_BASE + aggregates.len() as u64;
    let mut specs = render_id_lines(t::AGGREGATE_SPEC, aggregates, AGGREGATE_BASE);
    let window_specs = render_id_lines(t::WINDOW_SPEC, windows, win_base);
    specs.append(window_specs.as_str());
    let mut arms = render_id_lines(t::ID_ARM, aggregates, AGGREGATE_BASE);
    let window_arms = render_id_lines(t::ID_ARM, windows, win_base);
    arms.append(window_arms.as_str());
    let state = fill1(t::AGGREGATE_STATE, "aggregate_id_arms", arms.as_str());
    SurfaceText {
        import: t::AGGREGATE_IMPORT.to_owned(),
        local: fill1(t::AGGREGATE_LOCAL, "aggregate_specs", specs.as_str()),
        field: "aggregate_functions,",
        dispatch: cat3(state.as_str(), t::AGGREGATE_GUEST, t::AGGREGATE_METHODS),
    }
}

fn render_vtab_surface(tables: &Vec<String>, sigs: &Vec<(String, TableSig)>) -> (r: (
    SurfaceText,
    usize,
))
    requires
        VTAB_BASE + tables@.len() <= u64::MAX,
    ensures
        shows(r.0, vtab_surface(text::strs(tables@), table_sigs::named_sigs(sigs@))),
        r.1 == count_opaque(text::strs(tables@), table_sigs::named_sigs(sigs@), tables@.len()),
{
    let (connect, opaque) = render_connect_arms(tables, sigs);
    if tables.len() == 0 {
        return (
            SurfaceText {
                import: String::new(),
                local: String::new(),
                field: "vtabs: vec![],",
                dispatch: String::new(),
            },
            opaque,
        );
    }
    let specs = render_id_lines(t::VTAB_SPEC, tables, VTAB_BASE);
    let arms = render_id_lines(t::ID_ARM, tables, VTAB_BASE);
    let state = fill1(t::VTAB_STATE, "vtab_id_arms", arms.as_str());
    let methods = fill1(t::VTAB_METHODS, "vtab_connect_arms", connect.as_str());
    let surface = SurfaceText {
        import: t::VTAB_IMPORT.to_owned(),
        local: fill1(t::VTAB_LOCAL, "vtab_specs", specs.as_str()),
        field: "vtabs,",
        dispatch: cat3(state.as_str(), t::VTAB_GUEST, methods.as_str()),
    };
    (surface, opaque)
}

/// The source of a bridge up to the dispatch of aggregates, windows and virtual tables.
pub open spec fn lib_start(
    provider_id: Seq<char>,
    extension_root: Seq<char>,
    catalog_extension: Seq<char>,
    version: Seq<char>,
    functions: Seq<(FnKind, String)>,
    aliases: Seq<text::Binding>,
    sigs: Seq<(Seq<char>, TableSigView)>,
) -> Seq<char> {
    let scalars = names_of_kind(functions, FnKind::Scalar);
    let tables = names_of_kind(functions, FnKind::Table);
    let agg = aggregate_surface(
        names_of_kind(functions, FnKind::Aggregate),
        names_of_kind(functions, FnKind::Window),
    );
    let vtab = vtab_surface(tables, sigs);
    text::fill(
        t::LIB_START@,
        seq![
            ("agg_import"@, agg.import),
            ("vtab_import"@, vtab.import),
            ("provider_id"@, provider_id),
            ("extension_root"@, extension_root),
            ("catalog_extension"@, catalog_extension),
            ("version"@, version),
            ("scalar_id_arms"@, id_lines(t::ID_ARM@, scalars, SCALAR_BASE as nat, scalars.len())),
            (
                "alias_arms"@,
                alias_arms(
                    aliases,
                    scalars,
                    tables,
                    aliases.len(),
                ),
            ),
            (
                "scalar_specs"@,
                id_lines(t::SCALAR_SPEC@, scalars, SCALAR_BASE as nat, scalars.len()),
            ),
            ("agg_manifest_local"@, agg.local),
            ("vtab_manifest_local"@, vtab.local),
            ("agg_manifest_field"@, agg.field),
            ("vtab_manifest_field"@, vtab.field),
        ],
    )
}

/// The dispatch of aggregates and windows; empty where there are none.
pub open spec fn aggregate_dispatch(functions: Seq<(FnKind, String)>) -> Seq<char> {
    aggregate_surface(
        names_of_kind(functions, FnKind::Aggregate),
        names_of_kind(functions, FnKind::Window),
    ).dispatch
}

/// The dispatch of virtual tables; empty where there are none.
pub open spec fn vtab_dispatch(
    functions: Seq<(FnKind, String)>,
    sigs: Seq<(Seq<char>, TableSigView)>,
) -> Seq<char> {
    vtab_surface(names_of_kind(functions, FnKind::Table), sigs).dispatch
}

/// The source of a bridge.
pub open spec fn lib_text(
    provider_id: Seq<char>,
    extension_root: Seq<char>,
    catalog_extension: Seq<char>,
    version: Seq<char>,
    functions: Seq<(FnKind, String)>,
    aliases: Seq<text::Binding>,
    sigs: Seq<(Seq<char>, TableSigView)>,
) -> Seq<char> {
    lib_start(
        provider_id,
        extension_root,
        catalog_extension,
        version,
        functions,
        aliases,
        sigs,
    ) + aggregate_dispatch(functions) + vtab_dispatch(functions, sigs) + t::LIB_END@
}

/// The source of a bridge.
pub open spec fn lib_source(inputs: LibInputs) -> Seq<char> {
    lib_text(
        inputs.provider_id@,
        inputs.extension_root@,
        inputs.catalog_extension@,
        inputs.version@,
        inputs.functions@,
        packages::pairs(inputs.aliases@),
        table_sigs::named_sigs(inputs.sigs@),
    )
}

/// Writes the source of a bridge, and counts the virtual tables without a signature.
pub fn lib_rs(inputs: &LibInputs) -> (r: (String, usize))
    requires
        VTAB_BASE + 2 * inputs.functions@.len() <= u64::MAX,
    ensures
        r.0@ == lib_source(*inputs),
        r.1 == count_opaque(
            names_of_kind(inputs.functions@, FnKind::Table),
            table_sigs::named_sigs(inputs.sigs@),
            names_of_kind(inputs.functions@, FnKind::Table).len(),
        ),
{
    let scalars = list_names_of_kind(&inputs.functions, FnKind::Scalar);
    let aggregates = list_names_of_kind(&inputs.functions, FnKind::Aggregate);
    let windows = list_names_of_kind(&inputs.functions, FnKind::Window);
    let tables = list_names_of_kind(&inputs.functions, FnKind::Table);
    let agg = render_aggregate_surface(&aggregates, &windows);
    let (vtab, opaque) = render_vtab_surface(&tables, &inputs.sigs);
    let arms = render_alias_arms(&inputs.aliases, &scalars, &tables);
    let id_arms = render_id_lines(t::ID_ARM, &scalars, SCALAR_BASE);
    let specs = render_id_lines(t::SCALAR_SPEC, &scalars, SCALAR_BASE);
    let mut b: Vec<(&str, &str)> = Vec::new();
    b.push(("agg_import", agg.import.as_str()));
    b.push(("vtab_import", vtab.import.as_str()));
    b.push(("provider_id", inputs.provider_id.as_str()));
    b.push(("extension_root", inputs.extension_root.as_str()));
    b.push(("catalog_extension", inputs.catalog_extension.as_str()));
    b.push(("version", inputs.version.as_str()));
    b.push(("scalar_id_arms", id_arms.as_str()));
    b.push(("alias_arms", arms.as_str()));
    b.push(("scalar_specs", specs.as_str()));
    b.push(("agg_manifest_local", agg.local.as_str()));
    b.push(("vtab_manifest_local", vtab.local.as_str()));
    b.push(("agg_manifest_field", agg.field));
    b.push(("vtab_manifest_field", vtab.field));
    proof {
        assert(text::strs(scalars@).len() == scalars@.len());
        assert(text::strs(tables@).len() == tables@.len());
        assert(text::bindings(b@) =~= seq![
            ("agg_import"@, agg.import@),
            ("vtab_import"@, vtab.import@),
            ("provider_id"@, inputs.provider_id@),
            ("extension_root"@, inputs.extension_root@),
            ("catalog_extension"@, inputs.catalog_extension@),
            ("version"@, inputs.version@),
            ("scalar_id_arms"@, id_arms@),
            ("alias_arms"@, arms@),
            ("scalar_specs"@, specs@),
            ("agg_manifest_local"@, agg.local@),
            ("vtab_manifest_local"@, vtab.local@),
            ("agg_manifest_field"@, agg.field@),
            ("vtab_manifest_field"@, vtab.field@),
        ]);
    }
    let mut r = text::fill_with(t::LIB_START, &b);
    r.append(agg.dispatch.as_str());
    r.append(vtab.dispatch.as_str());
    r.append(t::LIB_END);
    (r, opaque)
}

// ─── Emitting ───

/// The position of the first target, at `k` or later, with this id, or the number of targets.
pub open spec fn target_from(targets: Seq<Target>, id: Seq<char>, k: int) -> int
    decreases targets.len() - k,
{
    if k >= targets.len() || targets[k].id@ == id {
        k
    } else {
        target_from(targets, id, k + 1)
    }
}

fn find_target(targets: &Vec<Target>, id: &str) -> (r: usize)
    ensures
        r <= targets@.len(),
        r == target_from(targets@, id@, 0),
{
    let mut k: usize = 0;
    while k < targets.len() && !same(targets[k].id.as_str(), id)
        invariant
            k <= targets@.len(),
            target_from(targets@, id@, 0) == target_from(targets@, id@, k as int),
        decreases targets.len() - k,
    {
        k = k + 1;
    }
    k
}

/// Whether an alias is one of a scalar or of a table function.
pub open spec fn alias_taken(a: Alias) -> bool {
    a.kind@ == "scalar"@ || a.kind@ == "table_function"@
}

/// The aliases of scalars and table functions among the first `n`.
pub open spec fn taken_aliases(aliases: Seq<Alias>, n: nat) -> Seq<text::Binding>
    decreases n,
{
    if n == 0 {
        Seq::empty()
    } else if alias_taken(aliases[n - 1]) {
        taken_aliases(aliases, (n - 1) as nat).push(
            (aliases[n - 1].alias@, aliases[n - 1].canonical@),
        )
    } else {
        taken_aliases(aliases, (n - 1) as nat)
    }
}

fn list_taken_aliases(aliases: &Vec<Alias>) -> (r: Vec<(String, String)>)
    ensures
        packages::pairs(r@) == taken_aliases(aliases@, aliases@.len()),
{
    let mut r: Vec<(String, String)> = Vec::new();
    assert(packages::pairs(r@) =~= Seq::<text::Binding>::empty());
    let mut k: usize = 0;
    while k < aliases.len()
        invariant
            k <= aliases@.len(),
            packages::pairs(r@) == taken_aliases(aliases@, k as nat),
        decreases aliases.len() - k,
    {
        let a = &aliases[k];
        if same(a.kind.as_str(), "scalar") || same(a.kind.as_str(), "table_function") {
            packages::push_pair(&mut r, a.alias.as_str(), a.canonical.as_str());
        }
        k = k + 1;
    }
    r
}

/// The version of a bridge: that of the catalog, or `0.1.0` where the catalog has none.
pub open spec fn bridge_version(catalog: Catalog) -> Seq<char> {
    if catalog.version@.len() == 0 {
        "0.1.0"@
    } else {
        catalog.version@
    }
}

fn copy_functions(functions: &Vec<(FnKind, String)>) -> (r: Vec<(FnKind, String)>)
    ensures
        r@ == functions@,
{
    let mut r: Vec<(FnKind, String)> = Vec::new();
    let mut k: usize = 0;
    while k < functions.len()
        invariant
            k <= functions@.len(),
            r@ == functions@.take(k as int),
        decreases functions.len() - k,
    {
        r.push((functions[k].0, functions[k].1.clone()));
        proof {
            assert(functions@.take(k + 1) =~= functions@.take(k as int).push(functions@[k as int]));
        }
        k = k + 1;
    }
    assert(functions@.take(k as int) =~= functions@);
    r
}

/// Whether `files` are those of a bridge for the functions of a target, with the signatures of
/// table functions in `sigs`.
pub open spec fn bridges(
    files: BridgeCrate,
    catalog: Catalog,
    functions: Seq<(FnKind, String)>,
    opts: DynlinkOptions,
    target: Seq<char>,
    sigs: Seq<(Seq<char>, TableSigView)>,
) -> bool {
    let name = words::dashed(opts.sub_ext@) + "-sqlite-bridge-dynlink"@;
    let tables = names_of_kind(functions, FnKind::Table);
    &&& files.cargo_toml@ == text::fill(
        t::CARGO_TOML@,
        seq![("crate_name"@, name), ("version"@, bridge_version(catalog))],
    )
    &&& files.world_wit@ == world(
        opts.sub_ext@,
        has_kind(functions, FnKind::Aggregate) || has_kind(functions, FnKind::Window),
        has_kind(functions, FnKind::Table),
    )
    &&& files.readme@ == text::fill(
        t::README@,
        seq![
            ("crate_name"@, name),
            ("provider_id"@, opts.provider_id@),
            ("sub_ext"@, opts.sub_ext@),
            ("target"@, target),
        ],
    )
    &&& files.lib_rs@ == lib_text(
        opts.provider_id@,
        opts.extension_root@,
        catalog.extension@,
        bridge_version(catalog),
        functions,
        taken_aliases(catalog.aliases@, catalog.aliases@.len()),
        sigs,
    )
    &&& files.opaque == count_opaque(tables, sigs, tables.len())
    &&& files.without_interface == (opts.interface_sqlite is None && has_kind(
        functions,
        FnKind::Table,
    ))
}

/// The signatures that count: those of the interface database where one is given, else none.
pub open spec fn known_sigs(opts: DynlinkOptions, rows: Seq<TableRow>) -> Seq<
    (Seq<char>, TableSigView),
> {
    if opts.interface_sqlite is Some {
        table_sigs::told_sigs(rows, rows.len())
    } else {
        Seq::empty()
    }
}

/// The files of the linker's package that a bridge takes over.
pub const LINKER_FILES: [&'static str; 3] = ["package.wit", "linker.wit", "endpoint.wit"];

/// Whether a file of the SQLite contract is taken over into the bridge: the world is not, since
/// the bridge has its own.
pub fn takes_over(file: &str) -> (r: bool)
    ensures
        r == (file@ != "world.wit"@),
{
    !same(file, "world.wit")
}

/// Whether the ids of all functions of each target fit into 64 bits.
pub open spec fn ids_fit(catalog: Catalog) -> bool {
    forall|k: int|
        0 <= k < catalog.targets@.len() ==> VTAB_BASE + 2 * (
        #[trigger] catalog.targets@[k]).functions@.len() <= u64::MAX
}

/// Whether the numbers of all targets' functions fit.
pub fn do_ids_fit(catalog: &Catalog) -> (r: bool)
    ensures
        r == ids_fit(*catalog),
{
    let mut k: usize = 0;
    while k < catalog.targets.len()
        invariant
            k <= catalog.targets@.len(),
            forall|j: int|
                0 <= j < k ==> VTAB_BASE + 2 * (
                #[trigger] catalog.targets@[j]).functions@.len() <= u64::MAX,
        decreases catalog.targets.len() - k,
    {
        if catalog.targets[k].functions.len() as u64 > (u64::MAX - VTAB_BASE) / 2 {
            assert(VTAB_BASE + 2 * catalog.targets@[k as int].functions@.len() > u64::MAX);
            return false;
        }
        k = k + 1;
    }
    true
}

/// Whether `r` is what emitting for `target` gives: a target that the catalog does not have is
/// an error; so is, where an interface database is named, its first faulty row; else the files
/// of the bridge come back.
pub open spec fn emitted(
    r: Result<BridgeCrate, EmitError>,
    catalog: Catalog,
    opts: DynlinkOptions,
    target: Seq<char>,
    rows: Seq<TableRow>,
) -> bool {
    let k = target_from(catalog.targets@, target, 0);
    let read = opts.interface_sqlite is Some;
    let fault = table_sigs::faulty_from(rows, 0);
    if k >= catalog.targets@.len() {
        r matches Err(EmitError::UnknownTarget { target: unknown }) && unknown@ == target
    } else if read && fault < rows.len() {
        match table_sigs::row_fault(rows[fault]) {
            table_sigs::RowFault::ParamTypes => r matches Err(
                EmitError::Signatures(TableSigError::ParamTypes { name, source }),
            ) && name@ == rows[fault].name@,
            _ => r matches Err(
                EmitError::Signatures(TableSigError::OutputColumns { name, source }),
            ) && name@ == rows[fault].name@,
        }
    } else {
        &&& r is Ok
        &&& bridges(
            r->Ok_0,
            catalog,
            catalog.targets@[k].functions@,
            opts,
            target,
            known_sigs(opts, rows),
        )
        &&& r->Ok_0.overloaded == if read {
            table_sigs::count_overloaded(rows, rows.len())
        } else {
            0
        }
    }
}

/// Writes the files of a bridge for the functions of the target that the options name. `rows`
/// is what the interface database says of table functions; it is read only where the options
/// name that database.
pub fn emit_dynlink(catalog: &Catalog, opts: &DynlinkOptions, rows: &Vec<TableRow>) -> (r: Result<
    BridgeCrate,
    EmitError,
>)
    requires
        ids_fit(*catalog),
    ensures
        emitted(r, *catalog, *opts, opts.target@, rows@),
{
    let k = find_target(&catalog.targets, opts.target.as_str());
    if k >= catalog.targets.len() {
        return Err(EmitError::UnknownTarget { target: opts.target.clone() });
    }
    let functions = copy_functions(&catalog.targets[k].functions);
    let (sigs, overloaded) = match &opts.interface_sqlite {
        Some(_) => match load_table_sigs(rows) {
            Ok(TableSigs { sigs, overloaded }) => (sigs, overloaded),
            Err(e) => {
                return Err(EmitError::Signatures(e));
            },
        },
        None => {
            let none: Vec<(String, TableSig)> = Vec::new();
            assert(table_sigs::named_sigs(none@) =~= Seq::<(Seq<char>, TableSigView)>::empty());
            (none, 0usize)
        },
    };
    let crate_name = crate_name_for(opts);
    let version = if catalog.version.as_str().is_empty() {
        "0.1.0".to_owned()
    } else {
        catalog.version.clone()
    };
    let has_tables = finds_kind(&functions, FnKind::Table);
    let has_aggs = finds_kind(&functions, FnKind::Aggregate) || finds_kind(
        &functions,
        FnKind::Window,
    );
    let manifest = cargo_toml(crate_name.as_str(), version.as_str());
    let world = world_wit(opts.sub_ext.as_str(), has_aggs, has_tables);
    let about = readme(
        crate_name.as_str(),
        opts.provider_id.as_str(),
        opts.sub_ext.as_str(),
        opts.target.as_str(),
    );
    let aliases = list_taken_aliases(&catalog.aliases);
    let inputs = LibInputs {
        provider_id: opts.provider_id.clone(),
        extension_root: opts.extension_root.clone(),
        catalog_extension: catalog.extension.clone(),
        version,
        functions,
        aliases,
        sigs,
    };
    let (source, opaque) = lib_rs(&inputs);
    let without_interface = opts.interface_sqlite.is_none() && has_tables;
    Ok(
        BridgeCrate {
            cargo_toml: manifest,
            world_wit: world,
            lib_rs: source,
            readme: about,
            overloaded,
            opaque,
            without_interface,
        },
    )
}

/// The target that counts: that of the options, or else the one that is given beside them.
pub open spec fn chosen_target(target: Seq<char>, opts: DynlinkOptions) -> Seq<char> {
    if opts.target@.len() == 0 {
        target
    } else {
        opts.target@
    }
}

/// Puts `target` into options that name no target.
pub fn choose_target(target: &str, opts: DynlinkOptions) -> (r: DynlinkOptions)
    ensures
        r.target@ == chosen_target(target@, opts),
        r.provider_id == opts.provider_id,
        r.sub_ext == opts.sub_ext,
        r.extension_root == opts.extension_root,
        r.interface_sqlite == opts.interface_sqlite,
{
    let mut chosen = opts;
    if chosen.target.as_str().is_empty() {
        chosen.target = target.to_owned();
    }
    chosen
}

/// Tells whether emitting a bridge reads the rows of an interface database: one is named, and
/// the catalog has the target.
pub fn reads_rows(catalog: &Catalog, opts: &DynlinkOptions) -> (r: bool)
    ensures
        r == (opts.interface_sqlite is Some && target_from(catalog.targets@, opts.target@, 0)
            < catalog.targets@.len()),
{
    opts.interface_sqlite.is_some() && find_target(&catalog.targets, opts.target.as_str())
        < catalog.targets.len()
}

/// Writes the files of a bridge. `target` counts where the options name none.
pub fn emit(catalog: &Catalog, target: &str, opts: DynlinkOptions, rows: &Vec<TableRow>) -> (r:
    Result<BridgeCrate, EmitError>)
    requires
        ids_fit(*catalog),
    ensures
        emitted(r, *catalog, opts, chosen_target(target@, opts), rows@),
{
    let ghost given = opts;
    let chosen = choose_target(target, opts);
    let r = emit_dynlink(catalog, &chosen, rows);
    assert(known_sigs(chosen, rows@) == known_sigs(given, rows@));
    r
}

// ─── Laws ───

/// While there are fewer than a million scalars, and at most a million aggregates and windows,
/// no id is given twice: those of scalars, of aggregates, of windows and of virtual tables lie
/// in ranges of their own, and none is 0.
pub proof fn law_id_ranges_apart(
    scalars: nat,
    aggregates: nat,
    windows: nat,
    s: nat,
    a: nat,
    w: nat,
    v: nat,
)
    requires
        scalars < 1_000_000,
        aggregates + windows <= 1_000_000,
        s < scalars,
        a < aggregates,
        w < windows,
    ensures
        0 < SCALAR_BASE + s < AGGREGATE_BASE + a < AGGREGATE_BASE + aggregates + w < VTAB_BASE + v,
{
}

/// The schema of a virtual table whose columns are known has a hidden column for each parameter,
/// and at least one, behind at least one column of its rows. Where the columns are not known the
/// schema is that of a table function without a signature.
pub proof fn law_schema_has_slots(sig: TableSigView)
    ensures
        known_columns(Some(sig)) is None <==> (sig.columns is None || sig.columns->Some_0.len()
            == 0),
        known_columns(Some(sig)) is None ==> schema(Some(sig)) == schema(None),
        known_columns(Some(sig)) matches Some(c) ==> {
            let rows = column_parts(c).len();
            let slots = hidden_count(sig.params.len());
            &&& schema_parts(c, sig.params.len()).len() == rows + slots
            &&& rows == c.len()
            &&& rows >= 1
            &&& slots >= 1
            &&& slots >= sig.params.len()
            &&& forall|k: int|
                0 <= k < slots ==> schema_parts(c, sig.params.len())[rows + k]
                    == #[trigger] hidden_parts(slots)[k]
        },
{
}

/// Whether `s` is a name in snake case: parts of lower-case letters and digits, none of them
/// empty, with one underscore between neighbours.
pub open spec fn snake_case(s: Seq<char>) -> bool {
    &&& s.len() > 0
    &&& s[0] != '_'
    &&& s.last() != '_'
    &&& forall|k: int| 0 <= k < s.len() ==> snake_char(#[trigger] s[k])
    &&& forall|j: int, k: int|
        0 <= j && k == j + 1 && k < s.len() && #[trigger] s[j] == '_' ==> #[trigger] s[k] != '_'
}

/// Whether `c` may stand in a name in snake case.
pub open spec fn snake_char(c: char) -> bool {
    kebab_char(c) || c == '_'
}

/// Whether `c` is a lower-case letter or a digit.
pub open spec fn kebab_char(c: char) -> bool {
    ('a' <= c && c <= 'z') || ('0' <= c && c <= '9')
}

/// Whether `part` is not empty, begins with a lower-case letter and goes on with lower-case
/// letters and digits.
pub open spec fn kebab_word(part: Seq<char>) -> bool {
    &&& part.len() > 0
    &&& 'a' <= part[0] && part[0] <= 'z'
    &&& forall|k: int| 0 <= k < part.len() ==> kebab_char(#[trigger] part[k])
}

/// In the package name made of a name in snake case, no part between hyphens begins with a
/// digit: each begins with a lower-case letter, and lower-case letters and digits follow.
pub proof fn law_pkg_name_parts(sub_ext: Seq<char>)
    requires
        snake_case(sub_ext),
    ensures
        hyphen_parts(pkg_name(sub_ext)).len() > 0,
        forall|k: int|
            0 <= k < hyphen_parts(pkg_name(sub_ext)).len() ==> kebab_word(
                #[trigger] hyphen_parts(pkg_name(sub_ext))[k],
            ),
{
    let d = words::dashed(sub_ext);
    let parts = hyphen_parts(d);
    let worded_parts = parts.map_values(|p: Seq<char>| worded(p));
    lemma_snake_parts(sub_ext, 0, 0);
    assert forall|k: int| 0 <= k < worded_parts.len() implies kebab_word(
        #[trigger] worded_parts[k],
    ) by {
        assert(kebab_part(parts[k]));
        lemma_worded(parts[k]);
    }
    lemma_joined_parts(worded_parts, worded_parts.len());
}

/// Whether `part` is not empty and made of lower-case letters and digits.
pub open spec fn kebab_part(part: Seq<char>) -> bool {
    &&& part.len() > 0
    &&& forall|k: int| 0 <= k < part.len() ==> kebab_char(#[trigger] part[k])
}

proof fn lemma_snake_parts(s: Seq<char>, start: int, k: int)
    requires
        snake_case(s),
        0 <= start <= k <= s.len(),
        start < s.len(),
        start == 0 || s[start - 1] == '_',
        forall|j: int| start <= j < k ==> #[trigger] s[j] != '_',
    ensures
        parts_from(words::dashed(s), start, k).len() > 0,
        forall|j: int|
            0 <= j < parts_from(words::dashed(s), start, k).len() ==> kebab_part(
                #[trigger] parts_from(words::dashed(s), start, k)[j],
            ),
    decreases s.len() - k,
{
    let d = words::dashed(s);
    assert(s[start] != '_');
    assert forall|j: int| 0 <= j < d.len() implies #[trigger] d[j] == (if s[j] == '_' {
        '-'
    } else {
        s[j]
    }) by {
        assert(snake_char(s[j]));
    }
    if k >= s.len() {
        let part = d.subrange(start, d.len() as int);
        assert forall|j: int| 0 <= j < part.len() implies kebab_char(#[trigger] part[j]) by {
            assert(part[j] == d[start + j]);
            assert(snake_char(s[start + j]));
        }
    } else if s[k] == '_' {
        let part = d.subrange(start, k);
        assert forall|j: int| 0 <= j < part.len() implies kebab_char(#[trigger] part[j]) by {
            assert(part[j] == d[start + j]);
            assert(snake_char(s[start + j]));
        }
        assert(k + 1 < s.len());
        lemma_snake_parts(s, k + 1, k + 1);
        assert(d[k] == '-');
        let rest = parts_from(d, k + 1, k + 1);
        let all = parts_from(d, start, k);
        assert(all =~= seq![part] + rest);
        assert forall|j: int| 0 <= j < all.len() implies kebab_part(#[trigger] all[j]) by {
            if j > 0 {
                assert(all[j] == rest[j - 1]);
            }
        }
    } else {
        assert(d[k] != '-') by {
            assert(snake_char(s[k]));
        }
        lemma_snake_parts(s, start, k + 1);
    }
}

proof fn lemma_worded(part: Seq<char>)
    requires
        kebab_part(part),
    ensures
        kebab_word(worded(part)),
{
    let w = worded(part);
    assert(kebab_char(part[0]));
    if '0' <= part[0] && part[0] <= '9' {
        let word = digit_word(part[0]);
        lemma_digit_word(part[0]);
        assert forall|k: int| 0 <= k < w.len() implies kebab_char(#[trigger] w[k]) by {
            if k < word.len() {
                assert(w[k] == word[k]);
            } else {
                assert(w[k] == part[k - word.len() + 1]);
            }
        }
    }
}

proof fn lemma_digit_word(digit: char)
    ensures
        kebab_word(digit_word(digit)),
{
    reveal_strlit("zero");
    reveal_strlit("one");
    reveal_strlit("two");
    reveal_strlit("three");
    reveal_strlit("four");
    reveal_strlit("five");
    reveal_strlit("six");
    reveal_strlit("seven");
    reveal_strlit("eight");
    reveal_strlit("nine");
}

/// Words without hyphens, joined by hyphens, are the parts of what comes out.
proof fn lemma_joined_parts(parts: Seq<Seq<char>>, n: nat)
    requires
        0 < n <= parts.len(),
        forall|k: int| 0 <= k < parts.len() ==> kebab_word(#[trigger] parts[k]),
    ensures
        hyphen_parts(words::joined_prefix(parts, "-"@, n)) == parts.take(n as int),
    decreases n,
{
    reveal_strlit("-");
    let last = parts[n - 1];
    assert(kebab_word(last));
    if n == 1 {
        lemma_parts_end(last, 0, 0);
        assert(last.subrange(0, last.len() as int) =~= last);
        assert(parts.take(1) =~= seq![last]);
    } else {
        let before = words::joined_prefix(parts, "-"@, (n - 1) as nat);
        let all = before + "-"@ + last;
        lemma_joined_parts(parts, (n - 1) as nat);
        lemma_parts_appended(before, last, 0, 0);
        assert(parts.take(n as int) =~= parts.take(n - 1).push(last));
    }
}

proof fn lemma_parts_end(s: Seq<char>, start: int, k: int)
    requires
        0 <= start <= k <= s.len(),
        forall|j: int| k <= j < s.len() ==> #[trigger] s[j] != '-',
    ensures
        parts_from(s, start, k) == seq![s.subrange(start, s.len() as int)],
    decreases s.len() - k,
{
    if k < s.len() {
        lemma_parts_end(s, start, k + 1);
    }
}

proof fn lemma_parts_appended(before: Seq<char>, last: Seq<char>, start: int, k: int)
    requires
        0 <= start <= k <= before.len(),
        kebab_word(last),
    ensures
        parts_from(before + "-"@ + last, start, k) == parts_from(before, start, k).push(last),
    decreases before.len() - k,
{
    reveal_strlit("-");
    let all = before + "-"@ + last;
    if k >= before.len() {
        let n = before.len() as int;
        assert(all[n] == '-');
        assert forall|j: int| n + 1 <= j < all.len() implies #[trigger] all[j] != '-' by {
            assert(all[j] == last[j - n - 1]);
            assert(kebab_char(last[j - n - 1]));
        }
        lemma_parts_end(all, n + 1, n + 1);
        assert(all.subrange(n + 1, all.len() as int) =~= last);
        assert(all.subrange(start, n) =~= before.subrange(start, n));
        assert(parts_from(all, start, k) =~= parts_from(before, start, k).push(last));
    } else {
        assert(all[k] == before[k]);
        if before[k] == '-' {
            lemma_parts_appended(before, last, k + 1, k + 1);
            assert(all.subrange(start, k) =~= before.subrange(start, k));
            let rest = parts_from(before, k + 1, k + 1);
            assert(seq![before.subrange(start, k)] + rest.push(last) =~= (
            seq![before.subrange(start, k)] + rest).push(last));
        } else {
            lemma_parts_appended(before, last, start, k + 1);
        }
    }
}

/// The names that get ids do not depend on the order in which the catalog lists the functions,
/// nor on repetitions.
pub proof fn law_names_order_free(
    f: Seq<(FnKind, String)>,
    g: Seq<(FnKind, String)>,
    kind: FnKind,
)
    requires
        forall|name: Seq<char>|
            kind_names(f, kind, f.len()).contains(name) <==> kind_names(g, kind, g.len()).contains(
                name,
            ),
    ensures
        names_of_kind(f, kind) == names_of_kind(g, kind),
{
    order::law_sorted_set_order_free(
        kind_names(f, kind, f.len()),
        kind_names(g, kind, g.len()),
    );
}

/// The line about a name under an id.
pub open spec fn id_line(template: Seq<char>, name: Seq<char>, id: nat) -> Seq<char> {
    text::fill(template, seq![("id"@, words::decimal(id)), ("escaped"@, words::escaped(name))])
}

/// The manifest and the dispatch of scalars give each name one id.
pub proof fn law_ids_agree(scalars: Seq<Seq<char>>, k: int)
    requires
        0 <= k < scalars.len(),
    ensures
        words::has_piece(
            id_lines(t::SCALAR_SPEC@, scalars, SCALAR_BASE as nat, scalars.len()),
            id_line(t::SCALAR_SPEC@, scalars[k], (SCALAR_BASE + k) as nat),
        ),
        words::has_piece(
            id_lines(t::ID_ARM@, scalars, SCALAR_BASE as nat, scalars.len()),
            id_line(t::ID_ARM@, scalars[k], (SCALAR_BASE + k) as nat),
        ),
{
    lemma_id_line(t::SCALAR_SPEC@, scalars, SCALAR_BASE as nat, k, scalars.len());
    lemma_id_line(t::ID_ARM@, scalars, SCALAR_BASE as nat, k, scalars.len());
}

/// The manifest and the dispatch of aggregates give each name one id.
pub proof fn law_aggregate_ids_agree(aggregates: Seq<Seq<char>>, windows: Seq<Seq<char>>, k: int)
    requires
        0 <= k < aggregates.len(),
    ensures
        words::has_piece(
            aggregate_specs(aggregates, windows),
            id_line(t::AGGREGATE_SPEC@, aggregates[k], (AGGREGATE_BASE + k) as nat),
        ),
        words::has_piece(
            aggregate_arms(aggregates, windows),
            id_line(t::ID_ARM@, aggregates[k], (AGGREGATE_BASE + k) as nat),
        ),
{
    let base = AGGREGATE_BASE as nat;
    let n = aggregates.len();
    lemma_id_line(t::AGGREGATE_SPEC@, aggregates, base, k, n);
    words::lemma_piece_kept(
        id_lines(t::AGGREGATE_SPEC@, aggregates, base, n),
        id_lines(t::WINDOW_SPEC@, windows, (base + n) as nat, windows.len()),
        id_line(t::AGGREGATE_SPEC@, aggregates[k], (base + k) as nat),
    );
    lemma_id_line(t::ID_ARM@, aggregates, base, k, n);
    words::lemma_piece_kept(
        id_lines(t::ID_ARM@, aggregates, base, n),
        id_lines(t::ID_ARM@, windows, (base + n) as nat, windows.len()),
        id_line(t::ID_ARM@, aggregates[k], (base + k) as nat),
    );
}

/// The manifest and the dispatch of windows give each name one id, which follows those of the
/// aggregates.
pub proof fn law_window_ids_agree(aggregates: Seq<Seq<char>>, windows: Seq<Seq<char>>, k: int)
    requires
        0 <= k < windows.len(),
    ensures
        words::has_piece(
            aggregate_specs(aggregates, windows),
            id_line(t::WINDOW_SPEC@, windows[k], (AGGREGATE_BASE + aggregates.len() + k) as nat),
        ),
        words::has_piece(
            aggregate_arms(aggregates, windows),
            id_line(t::ID_ARM@, windows[k], (AGGREGATE_BASE + aggregates.len() + k) as nat),
        ),
{
    let n = aggregates.len();
    let base = (AGGREGATE_BASE + n) as nat;
    lemma_id_line(t::WINDOW_SPEC@, windows, base, k, windows.len());
    words::lemma_piece_moved(
        id_lines(t::AGGREGATE_SPEC@, aggregates, AGGREGATE_BASE as nat, n),
        id_lines(t::WINDOW_SPEC@, windows, base, windows.len()),
        id_line(t::WINDOW_SPEC@, windows[k], (base + k) as nat),
    );
    lemma_id_line(t::ID_ARM@, windows, base, k, windows.len());
    words::lemma_piece_moved(
        id_lines(t::ID_ARM@, aggregates, AGGREGATE_BASE as nat, n),
        id_lines(t::ID_ARM@, windows, base, windows.len()),
        id_line(t::ID_ARM@, windows[k], (base + k) as nat),
    );
}

/// The manifest and the dispatch of virtual tables give each name one id, and under that id
/// stands the schema that the name has.
pub proof fn law_vtab_ids_agree(
    tables: Seq<Seq<char>>,
    sigs: Seq<(Seq<char>, TableSigView)>,
    k: int,
)
    requires
        0 <= k < tables.len(),
    ensures
        words::has_piece(
            vtab_specs(tables),
            id_line(t::VTAB_SPEC@, tables[k], (VTAB_BASE + k) as nat),
        ),
        words::has_piece(
            vtab_arms(tables),
            id_line(t::ID_ARM@, tables[k], (VTAB_BASE + k) as nat),
        ),
        words::has_piece(
            connect_arms(tables, sigs, tables.len()),
            connect_arm(tables[k], sigs, (VTAB_BASE + k) as nat),
        ),
{
    lemma_id_line(t::VTAB_SPEC@, tables, VTAB_BASE as nat, k, tables.len());
    lemma_id_line(t::ID_ARM@, tables, VTAB_BASE as nat, k, tables.len());
    lemma_connect_arm(tables, sigs, k, tables.len());
}

proof fn lemma_connect_arm(
    tables: Seq<Seq<char>>,
    sigs: Seq<(Seq<char>, TableSigView)>,
    k: int,
    n: nat,
)
    requires
        0 <= k < n <= tables.len(),
    ensures
        words::has_piece(
            connect_arms(tables, sigs, n),
            connect_arm(tables[k], sigs, (VTAB_BASE + k) as nat),
        ),
    decreases n,
{
    let before = connect_arms(tables, sigs, (n - 1) as nat);
    let piece = connect_arm(tables[k], sigs, (VTAB_BASE + k) as nat);
    if k == n - 1 {
        words::lemma_piece_added(before, piece);
    } else {
        lemma_connect_arm(tables, sigs, k, (n - 1) as nat);
        words::lemma_piece_kept(
            before,
            connect_arm(tables[n - 1], sigs, (VTAB_BASE + n - 1) as nat),
            piece,
        );
    }
}

/// In the files of a bridge the world exports the dispatch of aggregates just where the source
/// implements it, which is where the target has an aggregate or a window; so it is with virtual
/// tables and table functions.
pub proof fn law_world_and_source_agree(
    files: BridgeCrate,
    catalog: Catalog,
    functions: Seq<(FnKind, String)>,
    opts: DynlinkOptions,
    target: Seq<char>,
    sigs: Seq<(Seq<char>, TableSigView)>,
)
    requires
        bridges(files, catalog, functions, opts, target, sigs),
    ensures
        ({
            let aggs = has_kind(functions, FnKind::Aggregate) || has_kind(
                functions,
                FnKind::Window,
            );
            let tables = has_kind(functions, FnKind::Table);
            let start = lib_start(
                opts.provider_id@,
                opts.extension_root@,
                catalog.extension@,
                bridge_version(catalog),
                functions,
                taken_aliases(catalog.aliases@, catalog.aliases@.len()),
                sigs,
            );
            &&& aggs <==> files.world_wit@ == world(opts.sub_ext@, true, tables)
            &&& aggs <==> aggregate_dispatch(functions).len() > 0
            &&& aggs ==> words::has_piece(files.world_wit@, t::AGGREGATE_EXPORT@)
                && words::has_piece(files.lib_rs@, t::AGGREGATE_GUEST@)
            &&& !aggs ==> files.world_wit@ == world_start(opts.sub_ext@) + vtab_export(tables)
                + t::WORLD_END@ && files.lib_rs@ == start + vtab_dispatch(functions, sigs)
                + t::LIB_END@
            &&& tables <==> files.world_wit@ == world(opts.sub_ext@, aggs, true)
            &&& tables <==> vtab_dispatch(functions, sigs).len() > 0
            &&& tables ==> words::has_piece(files.world_wit@, t::VTAB_EXPORT@)
                && words::has_piece(files.lib_rs@, t::VTAB_GUEST@)
            &&& !tables ==> files.world_wit@ == world_start(opts.sub_ext@) + aggregate_export(aggs)
                + t::WORLD_END@ && files.lib_rs@ == start + aggregate_dispatch(functions)
                + t::LIB_END@
        }),
{
    let aggs = has_kind(functions, FnKind::Aggregate) || has_kind(functions, FnKind::Window);
    let tables = has_kind(functions, FnKind::Table);
    let start = lib_start(
        opts.provider_id@,
        opts.extension_root@,
        catalog.extension@,
        bridge_version(catalog),
        functions,
        taken_aliases(catalog.aliases@, catalog.aliases@.len()),
        sigs,
    );
    let a = aggregate_dispatch(functions);
    let v = vtab_dispatch(functions, sigs);
    lemma_kind_named(functions, FnKind::Aggregate);
    lemma_kind_named(functions, FnKind::Window);
    lemma_kind_named(functions, FnKind::Table);
    let head = world_start(opts.sub_ext@);
    let ae = aggregate_export(aggs);
    let ve = vtab_export(tables);
    reveal_strlit("\n    export sqlite:extension/aggregate-function@1.0.0;");
    reveal_strlit("\n    export sqlite:extension/vtab@1.0.0;");
    reveal_strlit("impl AggregateGuest for Component {");
    reveal_strlit("impl VtabGuest for Component {");
    assert(world(opts.sub_ext@, true, tables).len() == head.len() + t::AGGREGATE_EXPORT@.len()
        + ve.len() + t::WORLD_END@.len());
    assert(world(opts.sub_ext@, aggs, true).len() == head.len() + ae.len() + t::VTAB_EXPORT@.len()
        + t::WORLD_END@.len());
    assert(files.world_wit@.len() == head.len() + ae.len() + ve.len() + t::WORLD_END@.len());
    if aggs {
        words::lemma_piece_added(head, ae);
        words::lemma_piece_kept(head + ae, ve, ae);
        words::lemma_piece_kept(head + ae + ve, t::WORLD_END@, ae);
        let state = text::fill(
            t::AGGREGATE_STATE@,
            seq![
                (
                    "aggregate_id_arms"@,
                    aggregate_arms(
                        names_of_kind(functions, FnKind::Aggregate),
                        names_of_kind(functions, FnKind::Window),
                    ),
                ),
            ],
        );
        words::lemma_piece_added(state, t::AGGREGATE_GUEST@);
        words::lemma_piece_kept(
            state + t::AGGREGATE_GUEST@,
            t::AGGREGATE_METHODS@,
            t::AGGREGATE_GUEST@,
        );
        words::lemma_piece_moved(start, a, t::AGGREGATE_GUEST@);
        words::lemma_piece_kept(start + a, v, t::AGGREGATE_GUEST@);
        words::lemma_piece_kept(start + a + v, t::LIB_END@, t::AGGREGATE_GUEST@);
    } else {
        assert(head + ae =~= head);
        assert(start + a =~= start);
    }
    if tables {
        let names = names_of_kind(functions, FnKind::Table);
        words::lemma_piece_added(head + ae, ve);
        words::lemma_piece_kept(head + ae + ve, t::WORLD_END@, ve);
        let state = text::fill(t::VTAB_STATE@, seq![("vtab_id_arms"@, vtab_arms(names))]);
        let methods = text::fill(
            t::VTAB_METHODS@,
            seq![("vtab_connect_arms"@, connect_arms(names, sigs, names.len()))],
        );
        words::lemma_piece_added(state, t::VTAB_GUEST@);
        words::lemma_piece_kept(state + t::VTAB_GUEST@, methods, t::VTAB_GUEST@);
        words::lemma_piece_moved(start + a, v, t::VTAB_GUEST@);
        words::lemma_piece_kept(start + a + v, t::LIB_END@, t::VTAB_GUEST@);
    } else {
        assert(head + ae + ve =~= head + ae);
        assert(start + a + v =~= start + a);
    }
}

/// What is emitted does not depend on the rows where they are not read.
pub proof fn law_rows_unread(
    r: Result<BridgeCrate, EmitError>,
    catalog: Catalog,
    opts: DynlinkOptions,
    a: Seq<TableRow>,
    b: Seq<TableRow>,
)
    requires
        opts.interface_sqlite is None || target_from(catalog.targets@, opts.target@, 0)
            >= catalog.targets@.len(),
    ensures
        emitted(r, catalog, opts, opts.target@, a) <==> emitted(r, catalog, opts, opts.target@, b),
{
}

/// A kind has functions just where it has names.
proof fn lemma_kind_named(functions: Seq<(FnKind, String)>, kind: FnKind)
    ensures
        has_kind(functions, kind) <==> names_of_kind(functions, kind).len() > 0,
{
    let all = kind_names(functions, kind, functions.len());
    lemma_kind_names_found(functions, kind, functions.len());
    order::law_sorted_set(all);
    let names = names_of_kind(functions, kind);
    if has_kind(functions, kind) {
        assert(all.contains(all[0]));
        assert(names.contains(all[0]));
    }
    if names.len() > 0 {
        assert(names.contains(names[0]));
        assert(all.contains(names[0]));
    }
}

proof fn lemma_kind_names_found(functions: Seq<(FnKind, String)>, kind: FnKind, n: nat)
    requires
        n <= functions.len(),
    ensures
        kind_names(functions, kind, n).len() > 0 <==> exists|k: int|
            0 <= k < n && (#[trigger] functions[k]).0 == kind,
    decreases n,
{
    if n > 0 {
        lemma_kind_names_found(functions, kind, (n - 1) as nat);
        if functions[n - 1].0 == kind {
            assert(exists|k: int| 0 <= k < n && (#[trigger] functions[k]).0 == kind);
        }
    }
}

proof fn lemma_id_line(template: Seq<char>, names: Seq<Seq<char>>, base: nat, k: int, n: nat)
    requires
        0 <= k < n <= names.len(),
    ensures
        words::has_piece(
            id_lines(template, names, base, n),
            id_line(template, names[k], (base + k) as nat),
        ),
    decreases n,
{
    let before = id_lines(template, names, base, (n - 1) as nat);
    let piece = id_line(template, names[k], (base + k) as nat);
    if k == n - 1 {
        words::lemma_piece_added(before, piece);
    } else {
        lemma_id_line(template, names, base, k, (n - 1) as nat);
        words::lemma_piece_kept(
            before,
            id_line(template, names[n - 1], (base + n - 1) as nat),
            piece,
        );
    }
}

/// The word of a digit is its English name.
pub proof fn law_digit_words()
    ensures
        digit_word('0') == "zero"@,
        digit_word('1') == "one"@,
        digit_word('2') == "two"@,
        digit_word('3') == "three"@,
        digit_word('4') == "four"@,
        digit_word('5') == "five"@,
        digit_word('6') == "six"@,
        digit_word('7') == "seven"@,
        digit_word('8') == "eight"@,
        digit_word('9') == "nine"@,
{
}

} // verus!
