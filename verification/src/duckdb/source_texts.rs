//! What the source of a bridge crate holds besides its arms: the helpers of records and tuples,
//! the load of the extension, and the lines of its world.

use vstd::prelude::*;
use vstd::string::*;

use crate::duckdb::emit_lib;
use crate::duckdb::lib_templates as t;
use crate::duckdb::lifecycle;
use crate::duckdb::register;
use crate::gather;
use crate::ir::{BridgePlan, ListTupleElem, RecordType, ScalarFn, WitPackage};
use crate::text;
use crate::words;
use crate::worlds;

verus! {

/// An arm bears its number and holds its body.
pub proof fn law_arm(arm_idx: nat, body: Seq<char>)
    ensures
        emit_lib::arm(arm_idx, body)
            == "            "@ + words::decimal(arm_idx) + "usize => {\n"@ + body
                + "\n            }\n"@,
{
    lemma_arm(words::decimal(arm_idx), body);
}

/// A record has a function that reads it from a complex value, ones that read lists and lists of
/// lists of it from JSON texts, and one that makes a complex value of it under its name.
pub proof fn law_record_functions(r: RecordType)
    ensures
        ({
            let s = emit_lib::record_helpers(r);
            let path = gather::upstream_path(r.package@, r.interface@, r.kebab_name@);
            &&& words::has_piece(s, "fn arg_witvalue_"@ + r.helper_snake@ + "("@)
            &&& words::has_piece(s, "-> Result<"@ + path + ", types::Duckerror> "@)
            &&& words::has_piece(s, "serde_json::from_str::<"@ + path + ">(&cmplx.json)"@)
            &&& words::has_piece(s, "fn parse_json_list_record_"@ + r.helper_snake@ + "("@)
            &&& words::has_piece(s, "-> Result<Vec<"@ + path + ">, types::Duckerror> "@)
            &&& words::has_piece(s, "serde_json::from_str::<Vec<"@ + path + ">>(text)"@)
            &&& words::has_piece(s, "fn parse_json_list_list_record_"@ + r.helper_snake@ + "("@)
            &&& words::has_piece(s, "-> Result<Vec<Vec<"@ + path + ">>, types::Duckerror> "@)
            &&& words::has_piece(s, "serde_json::from_str::<Vec<Vec<"@ + path + ">>>(text)"@)
            &&& words::has_piece(s, "fn ret_to_witvalue_"@ + r.helper_snake@ + "("@)
            &&& words::has_piece(s, "upstream: "@ + path + ","@)
            &&& words::has_piece(
                s,
                "type_expr: \""@ + words::escaped(r.symbolic_name@) + "\".into(),"@,
            )
        }),
{
    let path = gather::upstream_path(r.package@, r.interface@, r.kebab_name@);
    let symbolic = words::escaped(r.symbolic_name@);
    lemma_arg_wit_value(r.helper_snake@, path);
    lemma_list_record(r.helper_snake@, path, r.kebab_name@);
    lemma_list_list_record(r.helper_snake@, path, r.kebab_name@);
    lemma_ret_wit_value(r.helper_snake@, path, symbolic);
    let holes = seq![("snake"@, r.helper_snake@), ("upstream_path"@, path), ("kebab"@, r.kebab_name@)];
    let a = text::fill(
        t::ARG_WIT_VALUE@,
        seq![("snake"@, r.helper_snake@), ("upstream_path"@, path)],
    );
    let b = text::fill(t::LIST_RECORD@, holes);
    let c = text::fill(t::LIST_LIST_RECORD@, holes);
    let d = text::fill(
        t::RET_WIT_VALUE@,
        seq![("snake"@, r.helper_snake@), ("upstream_path"@, path), ("symbolic"@, symbolic)],
    );
    lemma_in_four(a, b, c, d);
}

proof fn lemma_in_four(a: Seq<char>, b: Seq<char>, c: Seq<char>, d: Seq<char>)
    ensures
        forall|p: Seq<char>| #[trigger]
            words::has_piece(a, p) ==> words::has_piece(a + b + c + d, p),
        forall|p: Seq<char>| #[trigger]
            words::has_piece(b, p) ==> words::has_piece(a + b + c + d, p),
        forall|p: Seq<char>| #[trigger]
            words::has_piece(c, p) ==> words::has_piece(a + b + c + d, p),
        forall|p: Seq<char>| #[trigger]
            words::has_piece(d, p) ==> words::has_piece(a + b + c + d, p),
{
    let all = a + b + c + d;
    assert forall|p: Seq<char>| #[trigger] words::has_piece(a, p) implies words::has_piece(all, p) by {
        words::lemma_piece_kept(a, b, p);
        words::lemma_piece_kept(a + b, c, p);
        words::lemma_piece_kept(a + b + c, d, p);
    }
    assert forall|p: Seq<char>| #[trigger] words::has_piece(b, p) implies words::has_piece(all, p) by {
        words::lemma_piece_moved(a, b, p);
        words::lemma_piece_kept(a + b, c, p);
        words::lemma_piece_kept(a + b + c, d, p);
    }
    assert forall|p: Seq<char>| #[trigger] words::has_piece(c, p) implies words::has_piece(all, p) by {
        words::lemma_piece_moved(a + b, c, p);
        words::lemma_piece_kept(a + b + c, d, p);
    }
    assert forall|p: Seq<char>| #[trigger] words::has_piece(d, p) implies words::has_piece(all, p) by {
        words::lemma_piece_moved(a + b + c, d, p);
    }
}

/// In the helper of a tuple of primitives and records a primitive has its own name and type, and a
/// record those of its type.
pub proof fn law_mixed_elements(e: ListTupleElem)
    ensures
        match e {
            ListTupleElem::Prim(p) => {
                &&& emit_lib::mixed_suffix(e) == p.suffix()
                &&& emit_lib::mixed_type(e) == p.rust_type()
                &&& emit_lib::mixed_label(e) == p.wit_type()
            },
            ListTupleElem::Record(r) => {
                &&& emit_lib::mixed_suffix(e) == words::snake(r.kebab_name@)
                &&& emit_lib::mixed_type(e) == gather::upstream_path(
                    r.wit_package@,
                    r.wit_interface@,
                    r.kebab_name@,
                )
                &&& emit_lib::mixed_label(e) == r.kebab_name@
            },
        },
{
}

/// The helper of a tuple bears its name and reads a list of tuples of its types in their order; a
/// tuple of one element keeps its comma.
pub proof fn law_tuple_helper(suffix: Seq<char>, types: Seq<Seq<char>>, labels: Seq<Seq<char>>)
    ensures
        ({
            let s = gather::tuple_helper(t::TUPLE_HELPER@, suffix, types, labels);
            let rust_tuple = "("@ + words::joined(types, ", "@) + if types.len() == 1 {
                ",)"@
            } else {
                ")"@
            };
            &&& words::has_piece(
                s,
                "fn parse_json_list_tuple_"@ + suffix
                    + "(args: &[types::Duckvalue], idx: usize, name: &str) -> Result<Vec<"@
                    + rust_tuple + ">, types::Duckerror> "@,
            )
            &&& words::has_piece(s, "serde_json::from_str::<Vec<"@ + rust_tuple + ">>(text)"@)
        }),
{
    let rust_tuple = "("@ + words::joined(types, ", "@) + if types.len() == 1 {
        ",)"@
    } else {
        ")"@
    };
    lemma_tuple_helper(suffix, rust_tuple, words::joined(labels, ", "@));
}

/// Loading registers the logical types first where there are any, then the scalars, and behind them
/// each family that is there, and none that is not: the aggregates, the tables, the casts and the
/// windows. It answers with the name and the version of the first extension.
pub proof fn law_load_registers(
    bridge_struct: Seq<char>,
    plan: BridgePlan,
    has_aggregates: bool,
    has_tables: bool,
    has_casts: bool,
    has_windows: bool,
    has_logical_types: bool,
)
    requires
        plan.extensions@.len() > 0,
    ensures
        ({
            let s = lifecycle::lifecycle(
                bridge_struct,
                plan,
                has_aggregates,
                has_tables,
                has_casts,
                has_windows,
                has_logical_types,
            );
            let logical = if has_logical_types {
                "        register_logical_types()?;\n"@
            } else {
                ""@
            };
            let aggregates = if has_aggregates {
                "        register_aggregates()?;\n"@
            } else {
                ""@
            };
            let tables = if has_tables {
                "        register_tables()?;\n"@
            } else {
                ""@
            };
            let casts = if has_casts {
                "        register_casts()?;\n"@
            } else {
                ""@
            };
            let windows = if has_windows {
                "        register_windows()?;\n"@
            } else {
                ""@
            };
            let primary = plan.extensions@[0].name@;
            let version = plan.extensions@[0].version@;
            &&& words::has_piece(s, logical + "        register_scalars()?;\n"@)
            &&& words::has_piece(
                s,
                "        register_scalar_tvfs()?;\n"@ + aggregates + tables + casts + windows
                    + "        Ok(types::Loadresult "@,
            )
            &&& words::has_piece(s, "name: \""@ + primary + "\".into(),"@)
            &&& words::has_piece(s, "version: Some(\""@ + version + "\".into()),"@)
        }),
{
    let logical = lifecycle::call_where(has_logical_types, "        register_logical_types()?;\n"@);
    let aggregates = lifecycle::call_where(has_aggregates, "        register_aggregates()?;\n"@);
    let tables = lifecycle::call_where(has_tables, "        register_tables()?;\n"@);
    let casts = lifecycle::call_where(has_casts, "        register_casts()?;\n"@);
    let windows = lifecycle::call_where(has_windows, "        register_windows()?;\n"@);
    let primary = plan.extensions@[0].name@;
    let version = plan.extensions@[0].version@;
    lemma_lifecycle_start(
        bridge_struct,
        logical,
        aggregates,
        tables,
        casts,
        windows,
        primary,
        version,
    );
    lemma_lifecycle_calls(
        bridge_struct,
        logical,
        aggregates,
        tables,
        casts,
        windows,
        primary,
        version,
    );
    lemma_lifecycle_named(
        bridge_struct,
        logical,
        aggregates,
        tables,
        casts,
        windows,
        primary,
        version,
    );
}

/// An imported and an exported interface are named with their package and its version.
pub proof fn law_world_lines(pkg: WitPackage, iface: Seq<char>)
    ensures
        worlds::import_line(pkg, iface)
            == "    import "@ + pkg.ns_name@ + "/"@ + iface + "@"@ + pkg.version@ + ";\n"@,
        text::fill(
            worlds::EXPORT@,
            seq![("ns"@, pkg.ns_name@), ("iface"@, iface), ("ver"@, pkg.version@)],
        ) == "    export "@ + pkg.ns_name@ + "/"@ + iface + "@"@ + pkg.version@ + ";\n"@,
{
    lemma_import(pkg.ns_name@, iface, pkg.version@);
    lemma_export(pkg.ns_name@, iface, pkg.version@);
}

/// A function is deterministic as the last extension says that has a scalar of this name or alias,
/// by its last such scalar; one that no extension has is taken to be deterministic.
pub proof fn law_deterministic_as_told(plan: BridgePlan, name: Seq<char>, e: int, k: int)
    requires
        0 <= e < plan.extensions@.len() ==> {
            let scalars = plan.extensions@[e].scalars@;
            &&& 0 <= k < scalars.len()
            &&& (scalars[k].canonical_name@ == name || text::strs(
                scalars[k].aliases@,
            ).contains(name))
            &&& forall|j: int|
                k < j < scalars.len() ==> (#[trigger] scalars[j]).canonical_name@ != name
                    && !text::strs(scalars[j].aliases@).contains(name)
        },
        forall|d: int, j: int|
            (e < d || !(0 <= e < plan.extensions@.len())) && 0 <= d < plan.extensions@.len() && 0
                <= j < plan.extensions@[d].scalars@.len() ==> {
                let f = #[trigger] plan.extensions@[d].scalars@[j];
                f.canonical_name@ != name && !text::strs(f.aliases@).contains(name)
            },
    ensures
        register::deterministic(plan, name) == if 0 <= e < plan.extensions@.len() {
            plan.extensions@[e].scalars@[k].is_deterministic
        } else {
            true
        },
{
    lemma_said_by_extensions(plan, name, plan.extensions@.len(), e, k);
}

proof fn lemma_said_by_extensions(plan: BridgePlan, name: Seq<char>, n: nat, e: int, k: int)
    requires
        n <= plan.extensions@.len(),
        0 <= e < n ==> {
            let scalars = plan.extensions@[e].scalars@;
            &&& 0 <= k < scalars.len()
            &&& (scalars[k].canonical_name@ == name || text::strs(
                scalars[k].aliases@,
            ).contains(name))
            &&& forall|j: int|
                k < j < scalars.len() ==> (#[trigger] scalars[j]).canonical_name@ != name
                    && !text::strs(scalars[j].aliases@).contains(name)
        },
        forall|d: int, j: int|
            (e < d || !(0 <= e < n)) && 0 <= d < n && 0 <= j
                < plan.extensions@[d].scalars@.len() ==> {
                let f = #[trigger] plan.extensions@[d].scalars@[j];
                f.canonical_name@ != name && !text::strs(f.aliases@).contains(name)
            },
    ensures
        register::said_by_extensions(plan.extensions@, name, n) == if 0 <= e < n {
            Some(plan.extensions@[e].scalars@[k].is_deterministic)
        } else {
            None
        },
    decreases n,
{
    if n > 0 {
        let scalars = plan.extensions@[n - 1].scalars@;
        if e == n - 1 {
            lemma_said_by_scalars(scalars, name, scalars.len(), k);
        } else {
            assert forall|j: int| 0 <= j < scalars.len() implies (
            #[trigger] scalars[j]).canonical_name@ != name && !text::strs(
                scalars[j].aliases@,
            ).contains(name) by {
                let f = plan.extensions@[n - 1].scalars@[j];
            }
            lemma_said_by_scalars(scalars, name, scalars.len(), -1);
            lemma_said_by_extensions(plan, name, (n - 1) as nat, e, k);
        }
    }
}

proof fn lemma_said_by_scalars(scalars: Seq<ScalarFn>, name: Seq<char>, n: nat, k: int)
    requires
        n <= scalars.len(),
        0 <= k < n ==> scalars[k].canonical_name@ == name || text::strs(
            scalars[k].aliases@,
        ).contains(name),
        forall|j: int|
            k < j < n && 0 <= j ==> (#[trigger] scalars[j]).canonical_name@ != name && !text::strs(
                scalars[j].aliases@,
            ).contains(name),
        k < n,
    ensures
        register::said_by_scalars(scalars, name, n) == if 0 <= k < n {
            Some(scalars[k].is_deterministic)
        } else {
            None
        },
    decreases n,
{
    if n > 0 && k != n - 1 {
        assert(scalars[n - 1].canonical_name@ != name);
        lemma_said_by_scalars(scalars, name, (n - 1) as nat, k);
    }
}

proof fn lemma_holes_arm_idx_body(arm_idx: Seq<char>, body: Seq<char>)
    ensures
        ({
            let b = seq![("arm_idx"@, arm_idx), ("body"@, body)];
            &&& text::lookup_from(b, "arm_idx"@, 0) == arm_idx
            &&& text::lookup_from(b, "body"@, 0) == body
        }),
{
    reveal_strlit("arm_idx");
    reveal_strlit("body");
    reveal_with_fuel(text::lookup_from, 3);
    assert("arm_idx"@.len() != "body"@.len());
}

proof fn lemma_holes_snake_upstream_path(snake: Seq<char>, upstream_path: Seq<char>)
    ensures
        ({
            let b = seq![("snake"@, snake), ("upstream_path"@, upstream_path)];
            &&& text::lookup_from(b, "snake"@, 0) == snake
            &&& text::lookup_from(b, "upstream_path"@, 0) == upstream_path
        }),
{
    reveal_strlit("snake");
    reveal_strlit("upstream_path");
    reveal_with_fuel(text::lookup_from, 3);
    assert("snake"@.len() != "upstream_path"@.len());
}

proof fn lemma_holes_snake_upstream_path_kebab(
    snake: Seq<char>,
    upstream_path: Seq<char>,
    kebab: Seq<char>,
)
    ensures
        ({
            let b = seq![("snake"@, snake), ("upstream_path"@, upstream_path), ("kebab"@, kebab)];
            &&& text::lookup_from(b, "snake"@, 0) == snake
            &&& text::lookup_from(b, "upstream_path"@, 0) == upstream_path
            &&& text::lookup_from(b, "kebab"@, 0) == kebab
        }),
{
    reveal_strlit("snake");
    reveal_strlit("upstream_path");
    reveal_strlit("kebab");
    reveal_with_fuel(text::lookup_from, 4);
    assert("snake"@.len() != "upstream_path"@.len());
    assert("snake"@[0] != "kebab"@[0]);
    assert("upstream_path"@.len() != "kebab"@.len());
}

proof fn lemma_holes_snake_upstream_path_symbolic(
    snake: Seq<char>,
    upstream_path: Seq<char>,
    symbolic: Seq<char>,
)
    ensures
        ({
            let b = seq![("snake"@, snake), ("upstream_path"@, upstream_path), ("symbolic"@, symbolic)];
            &&& text::lookup_from(b, "snake"@, 0) == snake
            &&& text::lookup_from(b, "upstream_path"@, 0) == upstream_path
            &&& text::lookup_from(b, "symbolic"@, 0) == symbolic
        }),
{
    reveal_strlit("snake");
    reveal_strlit("upstream_path");
    reveal_strlit("symbolic");
    reveal_with_fuel(text::lookup_from, 4);
    assert("snake"@.len() != "upstream_path"@.len());
    assert("snake"@.len() != "symbolic"@.len());
    assert("upstream_path"@.len() != "symbolic"@.len());
}

proof fn lemma_holes_suffix_rust_tuple_wit_label(
    suffix: Seq<char>,
    rust_tuple: Seq<char>,
    wit_label: Seq<char>,
)
    ensures
        ({
            let b = seq![("suffix"@, suffix), ("rust_tuple"@, rust_tuple), ("wit_label"@, wit_label)];
            &&& text::lookup_from(b, "suffix"@, 0) == suffix
            &&& text::lookup_from(b, "rust_tuple"@, 0) == rust_tuple
            &&& text::lookup_from(b, "wit_label"@, 0) == wit_label
        }),
{
    reveal_strlit("suffix");
    reveal_strlit("rust_tuple");
    reveal_strlit("wit_label");
    reveal_with_fuel(text::lookup_from, 4);
    assert("suffix"@.len() != "rust_tuple"@.len());
    assert("suffix"@.len() != "wit_label"@.len());
    assert("rust_tuple"@.len() != "wit_label"@.len());
}

proof fn lemma_holes_bridge_struct_logical_type_call_aggregate_call_table_call_cast_call_window_call_primary_version(
    bridge_struct: Seq<char>,
    logical_type_call: Seq<char>,
    aggregate_call: Seq<char>,
    table_call: Seq<char>,
    cast_call: Seq<char>,
    window_call: Seq<char>,
    primary: Seq<char>,
    version: Seq<char>,
)
    ensures
        ({
            let b = seq![("bridge_struct"@, bridge_struct), ("logical_type_call"@, logical_type_call), ("aggregate_call"@, aggregate_call), ("table_call"@, table_call), ("cast_call"@, cast_call), ("window_call"@, window_call), ("primary"@, primary), ("version"@, version)];
            &&& text::lookup_from(b, "bridge_struct"@, 0) == bridge_struct
            &&& text::lookup_from(b, "logical_type_call"@, 0) == logical_type_call
            &&& text::lookup_from(b, "aggregate_call"@, 0) == aggregate_call
            &&& text::lookup_from(b, "table_call"@, 0) == table_call
            &&& text::lookup_from(b, "cast_call"@, 0) == cast_call
            &&& text::lookup_from(b, "window_call"@, 0) == window_call
            &&& text::lookup_from(b, "primary"@, 0) == primary
            &&& text::lookup_from(b, "version"@, 0) == version
        }),
{
    reveal_strlit("bridge_struct");
    reveal_strlit("logical_type_call");
    reveal_strlit("aggregate_call");
    reveal_strlit("table_call");
    reveal_strlit("cast_call");
    reveal_strlit("window_call");
    reveal_strlit("primary");
    reveal_strlit("version");
    reveal_with_fuel(text::lookup_from, 9);
    assert("bridge_struct"@.len() != "logical_type_call"@.len());
    assert("bridge_struct"@.len() != "aggregate_call"@.len());
    assert("bridge_struct"@.len() != "table_call"@.len());
    assert("bridge_struct"@.len() != "cast_call"@.len());
    assert("bridge_struct"@.len() != "window_call"@.len());
    assert("bridge_struct"@.len() != "primary"@.len());
    assert("bridge_struct"@.len() != "version"@.len());
    assert("logical_type_call"@.len() != "aggregate_call"@.len());
    assert("logical_type_call"@.len() != "table_call"@.len());
    assert("logical_type_call"@.len() != "cast_call"@.len());
    assert("logical_type_call"@.len() != "window_call"@.len());
    assert("logical_type_call"@.len() != "primary"@.len());
    assert("logical_type_call"@.len() != "version"@.len());
    assert("aggregate_call"@.len() != "table_call"@.len());
    assert("aggregate_call"@.len() != "cast_call"@.len());
    assert("aggregate_call"@.len() != "window_call"@.len());
    assert("aggregate_call"@.len() != "primary"@.len());
    assert("aggregate_call"@.len() != "version"@.len());
    assert("table_call"@.len() != "cast_call"@.len());
    assert("table_call"@.len() != "window_call"@.len());
    assert("table_call"@.len() != "primary"@.len());
    assert("table_call"@.len() != "version"@.len());
    assert("cast_call"@.len() != "window_call"@.len());
    assert("cast_call"@.len() != "primary"@.len());
    assert("cast_call"@.len() != "version"@.len());
    assert("window_call"@.len() != "primary"@.len());
    assert("window_call"@.len() != "version"@.len());
    assert("primary"@[0] != "version"@[0]);
}

proof fn lemma_holes_ns_iface_ver(ns: Seq<char>, iface: Seq<char>, ver: Seq<char>)
    ensures
        ({
            let b = seq![("ns"@, ns), ("iface"@, iface), ("ver"@, ver)];
            &&& text::lookup_from(b, "ns"@, 0) == ns
            &&& text::lookup_from(b, "iface"@, 0) == iface
            &&& text::lookup_from(b, "ver"@, 0) == ver
        }),
{
    reveal_strlit("ns");
    reveal_strlit("iface");
    reveal_strlit("ver");
    reveal_with_fuel(text::lookup_from, 4);
    assert("ns"@.len() != "iface"@.len());
    assert("ns"@.len() != "ver"@.len());
    assert("iface"@.len() != "ver"@.len());
}

proof fn lemma_arm(arm_idx: Seq<char>, body: Seq<char>)
    ensures
        text::fill(t::ARM@, seq![("arm_idx"@, arm_idx), ("body"@, body)])
            == "            "@ + arm_idx + "usize => {\n"@ + body + "\n            }\n"@,
{
    let s = t::ARM@;
    let b = seq![("arm_idx"@, arm_idx), ("body"@, body)];
    reveal_strlit(r#"            {arm_idx}usize => {{
{body}
            }}
"#);
    reveal_with_fuel(text::plain_to, 31);
    lemma_holes_arm_idx_body(arm_idx, body);
    reveal_strlit("            ");
    assert(s.subrange(0, 12) =~= "            "@);
    text::lemma_fill_run(s, b, 0, "            "@);
    reveal_strlit("arm_idx");
    assert(s.subrange(13, 20) =~= "arm_idx"@);
    text::lemma_fill_hole(s, b, 12, "arm_idx"@);
    reveal_strlit("usize => ");
    assert(s.subrange(21, 30) =~= "usize => "@);
    text::lemma_fill_run(s, b, 21, "usize => "@);
    assert(text::fill_from(s, b, 30) == seq!['{'] + text::fill_from(s, b, 32));
    reveal_strlit("\n");
    assert(s.subrange(32, 33) =~= "\n"@);
    text::lemma_fill_run(s, b, 32, "\n"@);
    reveal_strlit("body");
    assert(s.subrange(34, 38) =~= "body"@);
    text::lemma_fill_hole(s, b, 33, "body"@);
    reveal_strlit("\n            ");
    assert(s.subrange(39, 52) =~= "\n            "@);
    text::lemma_fill_run(s, b, 39, "\n            "@);
    assert(text::fill_from(s, b, 52) == seq!['}'] + text::fill_from(s, b, 54));
    assert(s.subrange(54, 55) =~= "\n"@);
    text::lemma_fill_run(s, b, 54, "\n"@);
    reveal_strlit("usize => {\n");
    reveal_strlit("\n            }\n");
    assert((
        "            "@
            + (
                arm_idx
                    + (
                        "usize => "@
                            + (
                                seq!['{']
                                    + (
                                        "\n"@
                                            + (
                                                body
                                                    + (
                                                        "\n            "@
                                                            + (
                                                                seq!['}']
                                                                    + (
                                                                        "\n"@
                                                                            + text::fill_from(
                                                                                s,
                                                                                b,
                                                                                55,
                                                                            )
                                                                    )
                                                            )
                                                    )
                                            )
                                    )
                            )
                    )
            )
    )
        =~= "            "@ + arm_idx + "usize => {\n"@ + body + "\n            }\n"@);
}

proof fn lemma_arg_wit_value(snake: Seq<char>, upstream_path: Seq<char>)
    ensures
        words::has_piece(
            text::fill(
                t::ARG_WIT_VALUE@,
                seq![("snake"@, snake), ("upstream_path"@, upstream_path)],
            ),
            "fn arg_witvalue_"@ + snake + "("@,
        ),
        words::has_piece(
            text::fill(
                t::ARG_WIT_VALUE@,
                seq![("snake"@, snake), ("upstream_path"@, upstream_path)],
            ),
            "-> Result<"@ + upstream_path + ", types::Duckerror> "@,
        ),
        words::has_piece(
            text::fill(
                t::ARG_WIT_VALUE@,
                seq![("snake"@, snake), ("upstream_path"@, upstream_path)],
            ),
            "serde_json::from_str::<"@ + upstream_path + ">(&cmplx.json)"@,
        ),
{
    let s = t::ARG_WIT_VALUE@;
    reveal_strlit(r#"fn arg_witvalue_{snake}(
    args: &[types::Duckvalue],
    idx: usize,
    name: &str,
) -> Result<{upstream_path}, types::Duckerror> {{
    let cmplx = match args.get(idx) {{
        Some(types::Duckvalue::Complex(c)) => c,
        _ => return Err(types::Duckerror::Invalidargument(
            format!("{{name}}: arg {{idx}} must be COMPLEX (wit-value record)"))),
    }};
    serde_json::from_str::<{upstream_path}>(&cmplx.json)
        .map_err(|e| types::Duckerror::Invalidargument(
            format!("{{name}}: decode arg {{idx}}: {{}}", e)))
}}

"#);
    reveal_with_fuel(text::plain_to, 31);
    reveal_with_fuel(text::passes_to, 46);
    let b = seq![("snake"@, snake), ("upstream_path"@, upstream_path)];
    lemma_holes_snake_upstream_path(snake, upstream_path);
    assert(words::has_piece(text::fill(t::ARG_WIT_VALUE@, b), "fn arg_witvalue_"@ + snake + "("@)) by {
        let before = text::lemma_fill_reaches(s, b, 0);
        reveal_strlit("fn arg_witvalue_");
        assert(s.subrange(0, 16) =~= "fn arg_witvalue_"@);
        text::lemma_fill_run(s, b, 0, "fn arg_witvalue_"@);
        reveal_strlit("snake");
        assert(s.subrange(17, 22) =~= "snake"@);
        text::lemma_fill_hole(s, b, 16, "snake"@);
        reveal_strlit("(");
        assert(s.subrange(23, 24) =~= "("@);
        text::lemma_fill_run(s, b, 23, "("@);
        let rest = text::fill_from(s, b, 24);
        let part = "fn arg_witvalue_"@ + snake + "("@;
        assert(("fn arg_witvalue_"@ + (snake + ("("@ + rest))) =~= part + rest);
        words::lemma_piece_between(before, part, rest);
    }
    assert(words::has_piece(
        text::fill(t::ARG_WIT_VALUE@, b),
        "-> Result<"@ + upstream_path + ", types::Duckerror> "@,
    )) by {
        let before = text::lemma_fill_reaches(s, b, 23);
        let past_23 = text::lemma_fill_passes(s, b, 23, 68);
        let past_68 = text::lemma_fill_passes(s, b, 68, 90);
        reveal_strlit("-> Result<");
        assert(s.subrange(90, 100) =~= "-> Result<"@);
        text::lemma_fill_run(s, b, 90, "-> Result<"@);
        reveal_strlit("upstream_path");
        assert(s.subrange(101, 114) =~= "upstream_path"@);
        text::lemma_fill_hole(s, b, 100, "upstream_path"@);
        reveal_strlit(", types::Duckerror> ");
        assert(s.subrange(115, 135) =~= ", types::Duckerror> "@);
        text::lemma_fill_run(s, b, 115, ", types::Duckerror> "@);
        let rest = text::fill_from(s, b, 135);
        let part = "-> Result<"@ + upstream_path + ", types::Duckerror> "@;
        assert(("-> Result<"@ + (upstream_path + (", types::Duckerror> "@ + rest))) =~= part + rest);
        assert(before + (past_23 + (past_68 + (part + rest)))
            =~= (before + past_23 + past_68) + (part + rest));
        words::lemma_piece_between(before + past_23 + past_68, part, rest);
    }
    assert(words::has_piece(
        text::fill(t::ARG_WIT_VALUE@, b),
        "serde_json::from_str::<"@ + upstream_path + ">(&cmplx.json)"@,
    )) by {
        let before = text::lemma_fill_reaches(s, b, 374);
        reveal_strlit(";\n    ");
        assert(s.subrange(374, 380) =~= ";\n    "@);
        text::lemma_fill_run(s, b, 374, ";\n    "@);
        reveal_strlit("serde_json::from_str::<");
        assert(s.subrange(380, 403) =~= "serde_json::from_str::<"@);
        text::lemma_fill_run(s, b, 380, "serde_json::from_str::<"@);
        reveal_strlit("upstream_path");
        assert(s.subrange(404, 417) =~= "upstream_path"@);
        text::lemma_fill_hole(s, b, 403, "upstream_path"@);
        reveal_strlit(">(&cmplx.json)");
        assert(s.subrange(418, 432) =~= ">(&cmplx.json)"@);
        text::lemma_fill_run(s, b, 418, ">(&cmplx.json)"@);
        let rest = text::fill_from(s, b, 432);
        let part = "serde_json::from_str::<"@ + upstream_path + ">(&cmplx.json)"@;
        assert(("serde_json::from_str::<"@ + (upstream_path + (">(&cmplx.json)"@ + rest))) =~= part + rest);
        assert(before + (";\n    "@ + (part + rest)) =~= (before + ";\n    "@) + (part + rest));
        words::lemma_piece_between(before + ";\n    "@, part, rest);
    }
}

proof fn lemma_list_record(snake: Seq<char>, upstream_path: Seq<char>, kebab: Seq<char>)
    ensures
        words::has_piece(
            text::fill(
                t::LIST_RECORD@,
                seq![("snake"@, snake), ("upstream_path"@, upstream_path), ("kebab"@, kebab)],
            ),
            "fn parse_json_list_record_"@ + snake + "("@,
        ),
        words::has_piece(
            text::fill(
                t::LIST_RECORD@,
                seq![("snake"@, snake), ("upstream_path"@, upstream_path), ("kebab"@, kebab)],
            ),
            "-> Result<Vec<"@ + upstream_path + ">, types::Duckerror> "@,
        ),
        words::has_piece(
            text::fill(
                t::LIST_RECORD@,
                seq![("snake"@, snake), ("upstream_path"@, upstream_path), ("kebab"@, kebab)],
            ),
            "serde_json::from_str::<Vec<"@ + upstream_path + ">>(text)"@,
        ),
{
    let s = t::LIST_RECORD@;
    reveal_strlit(r#"fn parse_json_list_record_{snake}(
    args: &[types::Duckvalue],
    idx: usize,
    name: &str,
) -> Result<Vec<{upstream_path}>, types::Duckerror> {{
    let text = dv_text(args, idx, name)?;
    serde_json::from_str::<Vec<{upstream_path}>>(text)
        .map_err(|e| types::Duckerror::Invalidargument(
            format!("{{name}}: arg {{idx}} must be JSON array of {kebab} ({{e}})")))
}}

"#);
    reveal_with_fuel(text::plain_to, 31);
    reveal_with_fuel(text::passes_to, 46);
    let b = seq![("snake"@, snake), ("upstream_path"@, upstream_path), ("kebab"@, kebab)];
    lemma_holes_snake_upstream_path_kebab(snake, upstream_path, kebab);
    assert(words::has_piece(text::fill(t::LIST_RECORD@, b), "fn parse_json_list_record_"@ + snake + "("@)) by {
        let before = text::lemma_fill_reaches(s, b, 0);
        reveal_strlit("fn parse_json_list_record_");
        assert(s.subrange(0, 26) =~= "fn parse_json_list_record_"@);
        text::lemma_fill_run(s, b, 0, "fn parse_json_list_record_"@);
        reveal_strlit("snake");
        assert(s.subrange(27, 32) =~= "snake"@);
        text::lemma_fill_hole(s, b, 26, "snake"@);
        reveal_strlit("(");
        assert(s.subrange(33, 34) =~= "("@);
        text::lemma_fill_run(s, b, 33, "("@);
        let rest = text::fill_from(s, b, 34);
        let part = "fn parse_json_list_record_"@ + snake + "("@;
        assert(("fn parse_json_list_record_"@ + (snake + ("("@ + rest))) =~= part + rest);
        words::lemma_piece_between(before, part, rest);
    }
    assert(words::has_piece(
        text::fill(t::LIST_RECORD@, b),
        "-> Result<Vec<"@ + upstream_path + ">, types::Duckerror> "@,
    )) by {
        let before = text::lemma_fill_reaches(s, b, 33);
        let past_33 = text::lemma_fill_passes(s, b, 33, 78);
        let past_78 = text::lemma_fill_passes(s, b, 78, 100);
        reveal_strlit("-> Result<Vec<");
        assert(s.subrange(100, 114) =~= "-> Result<Vec<"@);
        text::lemma_fill_run(s, b, 100, "-> Result<Vec<"@);
        reveal_strlit("upstream_path");
        assert(s.subrange(115, 128) =~= "upstream_path"@);
        text::lemma_fill_hole(s, b, 114, "upstream_path"@);
        reveal_strlit(">, types::Duckerror> ");
        assert(s.subrange(129, 150) =~= ">, types::Duckerror> "@);
        text::lemma_fill_run(s, b, 129, ">, types::Duckerror> "@);
        let rest = text::fill_from(s, b, 150);
        let part = "-> Result<Vec<"@ + upstream_path + ">, types::Duckerror> "@;
        assert(("-> Result<Vec<"@ + (upstream_path + (">, types::Duckerror> "@ + rest))) =~= part + rest);
        assert(before + (past_33 + (past_78 + (part + rest)))
            =~= (before + past_33 + past_78) + (part + rest));
        words::lemma_piece_between(before + past_33 + past_78, part, rest);
    }
    assert(words::has_piece(
        text::fill(t::LIST_RECORD@, b),
        "serde_json::from_str::<Vec<"@ + upstream_path + ">>(text)"@,
    )) by {
        let before = text::lemma_fill_reaches(s, b, 129);
        let past_129 = text::lemma_fill_passes(s, b, 129, 174);
        let past_174 = text::lemma_fill_passes(s, b, 174, 199);
        reveal_strlit("serde_json::from_str::<Vec<");
        assert(s.subrange(199, 226) =~= "serde_json::from_str::<Vec<"@);
        text::lemma_fill_run(s, b, 199, "serde_json::from_str::<Vec<"@);
        reveal_strlit("upstream_path");
        assert(s.subrange(227, 240) =~= "upstream_path"@);
        text::lemma_fill_hole(s, b, 226, "upstream_path"@);
        reveal_strlit(">>(text)");
        assert(s.subrange(241, 249) =~= ">>(text)"@);
        text::lemma_fill_run(s, b, 241, ">>(text)"@);
        let rest = text::fill_from(s, b, 249);
        let part = "serde_json::from_str::<Vec<"@ + upstream_path + ">>(text)"@;
        assert(("serde_json::from_str::<Vec<"@ + (upstream_path + (">>(text)"@ + rest))) =~= part + rest);
        assert(before + (past_129 + (past_174 + (part + rest)))
            =~= (before + past_129 + past_174) + (part + rest));
        words::lemma_piece_between(before + past_129 + past_174, part, rest);
    }
}

proof fn lemma_list_list_record(snake: Seq<char>, upstream_path: Seq<char>, kebab: Seq<char>)
    ensures
        words::has_piece(
            text::fill(
                t::LIST_LIST_RECORD@,
                seq![("snake"@, snake), ("upstream_path"@, upstream_path), ("kebab"@, kebab)],
            ),
            "fn parse_json_list_list_record_"@ + snake + "("@,
        ),
        words::has_piece(
            text::fill(
                t::LIST_LIST_RECORD@,
                seq![("snake"@, snake), ("upstream_path"@, upstream_path), ("kebab"@, kebab)],
            ),
            "-> Result<Vec<Vec<"@ + upstream_path + ">>, types::Duckerror> "@,
        ),
        words::has_piece(
            text::fill(
                t::LIST_LIST_RECORD@,
                seq![("snake"@, snake), ("upstream_path"@, upstream_path), ("kebab"@, kebab)],
            ),
            "serde_json::from_str::<Vec<Vec<"@ + upstream_path + ">>>(text)"@,
        ),
{
    let s = t::LIST_LIST_RECORD@;
    reveal_strlit(r#"fn parse_json_list_list_record_{snake}(
    args: &[types::Duckvalue],
    idx: usize,
    name: &str,
) -> Result<Vec<Vec<{upstream_path}>>, types::Duckerror> {{
    let text = dv_text(args, idx, name)?;
    serde_json::from_str::<Vec<Vec<{upstream_path}>>>(text)
        .map_err(|e| types::Duckerror::Invalidargument(
            format!("{{name}}: arg {{idx}} must be JSON array of arrays of {kebab} ({{e}})")))
}}

"#);
    reveal_with_fuel(text::plain_to, 31);
    reveal_with_fuel(text::passes_to, 46);
    let b = seq![("snake"@, snake), ("upstream_path"@, upstream_path), ("kebab"@, kebab)];
    lemma_holes_snake_upstream_path_kebab(snake, upstream_path, kebab);
    assert(words::has_piece(
        text::fill(t::LIST_LIST_RECORD@, b),
        "fn parse_json_list_list_record_"@ + snake + "("@,
    )) by {
        let before = text::lemma_fill_reaches(s, b, 0);
        reveal_strlit("fn parse_json_list_list_record");
        assert(s.subrange(0, 30) =~= "fn parse_json_list_list_record"@);
        text::lemma_fill_run(s, b, 0, "fn parse_json_list_list_record"@);
        reveal_strlit("_");
        assert(s.subrange(30, 31) =~= "_"@);
        text::lemma_fill_run(s, b, 30, "_"@);
        reveal_strlit("snake");
        assert(s.subrange(32, 37) =~= "snake"@);
        text::lemma_fill_hole(s, b, 31, "snake"@);
        reveal_strlit("(");
        assert(s.subrange(38, 39) =~= "("@);
        text::lemma_fill_run(s, b, 38, "("@);
        let rest = text::fill_from(s, b, 39);
        let part = "fn parse_json_list_list_record_"@ + snake + "("@;
        reveal_strlit("fn parse_json_list_list_record_");
        assert(("fn parse_json_list_list_record"@ + ("_"@ + (snake + ("("@ + rest)))) =~= part + rest);
        words::lemma_piece_between(before, part, rest);
    }
    assert(words::has_piece(
        text::fill(t::LIST_LIST_RECORD@, b),
        "-> Result<Vec<Vec<"@ + upstream_path + ">>, types::Duckerror> "@,
    )) by {
        let before = text::lemma_fill_reaches(s, b, 38);
        let past_38 = text::lemma_fill_passes(s, b, 38, 83);
        let past_83 = text::lemma_fill_passes(s, b, 83, 105);
        reveal_strlit("-> Result<Vec<Vec<");
        assert(s.subrange(105, 123) =~= "-> Result<Vec<Vec<"@);
        text::lemma_fill_run(s, b, 105, "-> Result<Vec<Vec<"@);
        reveal_strlit("upstream_path");
        assert(s.subrange(124, 137) =~= "upstream_path"@);
        text::lemma_fill_hole(s, b, 123, "upstream_path"@);
        reveal_strlit(">>, types::Duckerror> ");
        assert(s.subrange(138, 160) =~= ">>, types::Duckerror> "@);
        text::lemma_fill_run(s, b, 138, ">>, types::Duckerror> "@);
        let rest = text::fill_from(s, b, 160);
        let part = "-> Result<Vec<Vec<"@ + upstream_path + ">>, types::Duckerror> "@;
        assert(("-> Result<Vec<Vec<"@ + (upstream_path + (">>, types::Duckerror> "@ + rest)))
            =~= part + rest);
        assert(before + (past_38 + (past_83 + (part + rest)))
            =~= (before + past_38 + past_83) + (part + rest));
        words::lemma_piece_between(before + past_38 + past_83, part, rest);
    }
    assert(words::has_piece(
        text::fill(t::LIST_LIST_RECORD@, b),
        "serde_json::from_str::<Vec<Vec<"@ + upstream_path + ">>>(text)"@,
    )) by {
        let before = text::lemma_fill_reaches(s, b, 138);
        let past_138 = text::lemma_fill_passes(s, b, 138, 183);
        let past_183 = text::lemma_fill_passes(s, b, 183, 209);
        reveal_strlit("serde_json::from_str::<Vec<Vec");
        assert(s.subrange(209, 239) =~= "serde_json::from_str::<Vec<Vec"@);
        text::lemma_fill_run(s, b, 209, "serde_json::from_str::<Vec<Vec"@);
        reveal_strlit("<");
        assert(s.subrange(239, 240) =~= "<"@);
        text::lemma_fill_run(s, b, 239, "<"@);
        reveal_strlit("upstream_path");
        assert(s.subrange(241, 254) =~= "upstream_path"@);
        text::lemma_fill_hole(s, b, 240, "upstream_path"@);
        reveal_strlit(">>>(text)");
        assert(s.subrange(255, 264) =~= ">>>(text)"@);
        text::lemma_fill_run(s, b, 255, ">>>(text)"@);
        let rest = text::fill_from(s, b, 264);
        let part = "serde_json::from_str::<Vec<Vec<"@ + upstream_path + ">>>(text)"@;
        reveal_strlit("serde_json::from_str::<Vec<Vec<");
        assert(("serde_json::from_str::<Vec<Vec"@ + ("<"@ + (upstream_path + (">>>(text)"@ + rest))))
            =~= part + rest);
        assert(before + (past_138 + (past_183 + (part + rest)))
            =~= (before + past_138 + past_183) + (part + rest));
        words::lemma_piece_between(before + past_138 + past_183, part, rest);
    }
}

proof fn lemma_ret_wit_value(snake: Seq<char>, upstream_path: Seq<char>, symbolic: Seq<char>)
    ensures
        words::has_piece(
            text::fill(
                t::RET_WIT_VALUE@,
                seq![("snake"@, snake), ("upstream_path"@, upstream_path), ("symbolic"@, symbolic)],
            ),
            "fn ret_to_witvalue_"@ + snake + "("@,
        ),
        words::has_piece(
            text::fill(
                t::RET_WIT_VALUE@,
                seq![("snake"@, snake), ("upstream_path"@, upstream_path), ("symbolic"@, symbolic)],
            ),
            "upstream: "@ + upstream_path + ","@,
        ),
        words::has_piece(
            text::fill(
                t::RET_WIT_VALUE@,
                seq![("snake"@, snake), ("upstream_path"@, upstream_path), ("symbolic"@, symbolic)],
            ),
            "type_expr: \""@ + symbolic + "\".into(),"@,
        ),
{
    let s = t::RET_WIT_VALUE@;
    reveal_strlit(r#"fn ret_to_witvalue_{snake}(
    upstream: {upstream_path},
) -> Result<types::Duckvalue, types::Duckerror> {{
    let json = serde_json::to_string(&upstream)
        .map_err(|e| types::Duckerror::Internal(format!("encode {snake} wit-value: {{}}", e)))?;
    Ok(types::Duckvalue::Complex(types::Complexvalue {{
        type_expr: "{symbolic}".into(),
        json,
    }}))
}}

"#);
    reveal_with_fuel(text::plain_to, 31);
    reveal_with_fuel(text::passes_to, 46);
    let b = seq![("snake"@, snake), ("upstream_path"@, upstream_path), ("symbolic"@, symbolic)];
    lemma_holes_snake_upstream_path_symbolic(snake, upstream_path, symbolic);
    assert(words::has_piece(text::fill(t::RET_WIT_VALUE@, b), "fn ret_to_witvalue_"@ + snake + "("@)) by {
        let before = text::lemma_fill_reaches(s, b, 0);
        reveal_strlit("fn ret_to_witvalue_");
        assert(s.subrange(0, 19) =~= "fn ret_to_witvalue_"@);
        text::lemma_fill_run(s, b, 0, "fn ret_to_witvalue_"@);
        reveal_strlit("snake");
        assert(s.subrange(20, 25) =~= "snake"@);
        text::lemma_fill_hole(s, b, 19, "snake"@);
        reveal_strlit("(");
        assert(s.subrange(26, 27) =~= "("@);
        text::lemma_fill_run(s, b, 26, "("@);
        let rest = text::fill_from(s, b, 27);
        let part = "fn ret_to_witvalue_"@ + snake + "("@;
        assert(("fn ret_to_witvalue_"@ + (snake + ("("@ + rest))) =~= part + rest);
        words::lemma_piece_between(before, part, rest);
    }
    assert(words::has_piece(text::fill(t::RET_WIT_VALUE@, b), "upstream: "@ + upstream_path + ","@)) by {
        let before = text::lemma_fill_reaches(s, b, 26);
        reveal_strlit("(\n    ");
        assert(s.subrange(26, 32) =~= "(\n    "@);
        text::lemma_fill_run(s, b, 26, "(\n    "@);
        reveal_strlit("upstream: ");
        assert(s.subrange(32, 42) =~= "upstream: "@);
        text::lemma_fill_run(s, b, 32, "upstream: "@);
        reveal_strlit("upstream_path");
        assert(s.subrange(43, 56) =~= "upstream_path"@);
        text::lemma_fill_hole(s, b, 42, "upstream_path"@);
        reveal_strlit(",");
        assert(s.subrange(57, 58) =~= ","@);
        text::lemma_fill_run(s, b, 57, ","@);
        let rest = text::fill_from(s, b, 58);
        let part = "upstream: "@ + upstream_path + ","@;
        assert(("upstream: "@ + (upstream_path + (","@ + rest))) =~= part + rest);
        assert(before + ("(\n    "@ + (part + rest)) =~= (before + "(\n    "@) + (part + rest));
        words::lemma_piece_between(before + "(\n    "@, part, rest);
    }
    assert(words::has_piece(text::fill(t::RET_WIT_VALUE@, b), "type_expr: \""@ + symbolic + "\".into(),"@)) by {
        let before = text::lemma_fill_reaches(s, b, 245);
        let past_245 = text::lemma_fill_passes(s, b, 245, 290);
        let past_290 = text::lemma_fill_passes(s, b, 290, 319);
        reveal_strlit("type_expr: \"");
        assert(s.subrange(319, 331) =~= "type_expr: \""@);
        text::lemma_fill_run(s, b, 319, "type_expr: \""@);
        reveal_strlit("symbolic");
        assert(s.subrange(332, 340) =~= "symbolic"@);
        text::lemma_fill_hole(s, b, 331, "symbolic"@);
        reveal_strlit("\".into(),");
        assert(s.subrange(341, 350) =~= "\".into(),"@);
        text::lemma_fill_run(s, b, 341, "\".into(),"@);
        let rest = text::fill_from(s, b, 350);
        let part = "type_expr: \""@ + symbolic + "\".into(),"@;
        assert(("type_expr: \""@ + (symbolic + ("\".into(),"@ + rest))) =~= part + rest);
        assert(before + (past_245 + (past_290 + (part + rest)))
            =~= (before + past_245 + past_290) + (part + rest));
        words::lemma_piece_between(before + past_245 + past_290, part, rest);
    }
}

proof fn lemma_tuple_helper(suffix: Seq<char>, rust_tuple: Seq<char>, wit_label: Seq<char>)
    ensures
        words::has_piece(
            text::fill(
                t::TUPLE_HELPER@,
                seq![("suffix"@, suffix), ("rust_tuple"@, rust_tuple), ("wit_label"@, wit_label)],
            ),
            "fn parse_json_list_tuple_"@ + suffix
                + "(args: &[types::Duckvalue], idx: usize, name: &str) -> Result<Vec<"@
                + rust_tuple + ">, types::Duckerror> "@,
        ),
        words::has_piece(
            text::fill(
                t::TUPLE_HELPER@,
                seq![("suffix"@, suffix), ("rust_tuple"@, rust_tuple), ("wit_label"@, wit_label)],
            ),
            "serde_json::from_str::<Vec<"@ + rust_tuple + ">>(text)"@,
        ),
{
    let s = t::TUPLE_HELPER@;
    reveal_strlit(r#"fn parse_json_list_tuple_{suffix}(args: &[types::Duckvalue], idx: usize, name: &str) -> Result<Vec<{rust_tuple}>, types::Duckerror> {{
    let text = dv_text(args, idx, name)?;
    serde_json::from_str::<Vec<{rust_tuple}>>(text)
        .map_err(|e| types::Duckerror::Invalidargument(format!("{{name}}: arg {{idx}} must be JSON array of [{wit_label}] tuples ({{e}})")))
}}

"#);
    reveal_with_fuel(text::plain_to, 31);
    reveal_with_fuel(text::passes_to, 46);
    let b = seq![("suffix"@, suffix), ("rust_tuple"@, rust_tuple), ("wit_label"@, wit_label)];
    lemma_holes_suffix_rust_tuple_wit_label(suffix, rust_tuple, wit_label);
    assert(words::has_piece(
        text::fill(t::TUPLE_HELPER@, b),
        "fn parse_json_list_tuple_"@ + suffix
            + "(args: &[types::Duckvalue], idx: usize, name: &str) -> Result<Vec<"@ + rust_tuple
            + ">, types::Duckerror> "@,
    )) by {
        let before = text::lemma_fill_reaches(s, b, 0);
        reveal_strlit("fn parse_json_list_tuple_");
        assert(s.subrange(0, 25) =~= "fn parse_json_list_tuple_"@);
        text::lemma_fill_run(s, b, 0, "fn parse_json_list_tuple_"@);
        reveal_strlit("suffix");
        assert(s.subrange(26, 32) =~= "suffix"@);
        text::lemma_fill_hole(s, b, 25, "suffix"@);
        reveal_strlit("(args: &[types::Duckvalue], id");
        assert(s.subrange(33, 63) =~= "(args: &[types::Duckvalue], id"@);
        text::lemma_fill_run(s, b, 33, "(args: &[types::Duckvalue], id"@);
        reveal_strlit("x: usize, name: &str) -> Resul");
        assert(s.subrange(63, 93) =~= "x: usize, name: &str) -> Resul"@);
        text::lemma_fill_run(s, b, 63, "x: usize, name: &str) -> Resul"@);
        reveal_strlit("t<Vec<");
        assert(s.subrange(93, 99) =~= "t<Vec<"@);
        text::lemma_fill_run(s, b, 93, "t<Vec<"@);
        reveal_strlit("rust_tuple");
        assert(s.subrange(100, 110) =~= "rust_tuple"@);
        text::lemma_fill_hole(s, b, 99, "rust_tuple"@);
        reveal_strlit(">, types::Duckerror> ");
        assert(s.subrange(111, 132) =~= ">, types::Duckerror> "@);
        text::lemma_fill_run(s, b, 111, ">, types::Duckerror> "@);
        let rest = text::fill_from(s, b, 132);
        let part = "fn parse_json_list_tuple_"@ + suffix
            + "(args: &[types::Duckvalue], idx: usize, name: &str) -> Result<Vec<"@ + rust_tuple
            + ">, types::Duckerror> "@;
        reveal_strlit("(args: &[types::Duckvalue], idx: usize, name: &str) -> Result<Vec<");
        assert((
            "fn parse_json_list_tuple_"@
                + (
                    suffix
                        + (
                            "(args: &[types::Duckvalue], id"@
                                + (
                                    "x: usize, name: &str) -> Resul"@
                                        + (
                                            "t<Vec<"@
                                                + (rust_tuple + (">, types::Duckerror> "@ + rest))
                                        )
                                )
                        )
                )
        )
            =~= part + rest);
        words::lemma_piece_between(before, part, rest);
    }
    assert(words::has_piece(
        text::fill(t::TUPLE_HELPER@, b),
        "serde_json::from_str::<Vec<"@ + rust_tuple + ">>(text)"@,
    )) by {
        let before = text::lemma_fill_reaches(s, b, 111);
        let past_111 = text::lemma_fill_passes(s, b, 111, 156);
        let past_156 = text::lemma_fill_passes(s, b, 156, 181);
        reveal_strlit("serde_json::from_str::<Vec<");
        assert(s.subrange(181, 208) =~= "serde_json::from_str::<Vec<"@);
        text::lemma_fill_run(s, b, 181, "serde_json::from_str::<Vec<"@);
        reveal_strlit("rust_tuple");
        assert(s.subrange(209, 219) =~= "rust_tuple"@);
        text::lemma_fill_hole(s, b, 208, "rust_tuple"@);
        reveal_strlit(">>(text)");
        assert(s.subrange(220, 228) =~= ">>(text)"@);
        text::lemma_fill_run(s, b, 220, ">>(text)"@);
        let rest = text::fill_from(s, b, 228);
        let part = "serde_json::from_str::<Vec<"@ + rust_tuple + ">>(text)"@;
        assert(("serde_json::from_str::<Vec<"@ + (rust_tuple + (">>(text)"@ + rest))) =~= part + rest);
        assert(before + (past_111 + (past_156 + (part + rest)))
            =~= (before + past_111 + past_156) + (part + rest));
        words::lemma_piece_between(before + past_111 + past_156, part, rest);
    }
}

#[verifier::rlimit(60)]
proof fn lemma_lifecycle_start(
    bridge_struct: Seq<char>,
    logical_type_call: Seq<char>,
    aggregate_call: Seq<char>,
    table_call: Seq<char>,
    cast_call: Seq<char>,
    window_call: Seq<char>,
    primary: Seq<char>,
    version: Seq<char>,
)
    ensures
        words::has_piece(
            text::fill(
                lifecycle::LIFECYCLE@,
                seq![("bridge_struct"@, bridge_struct), ("logical_type_call"@, logical_type_call), ("aggregate_call"@, aggregate_call), ("table_call"@, table_call), ("cast_call"@, cast_call), ("window_call"@, window_call), ("primary"@, primary), ("version"@, version)],
            ),
            logical_type_call + "        register_scalars()?;\n"@,
        ),
{
    let s = lifecycle::LIFECYCLE@;
    reveal_strlit(r#"
impl guest::Guest for {bridge_struct} {{
    fn load() -> Result<types::Loadresult, types::Duckerror> {{
{logical_type_call}        register_scalars()?;
        // #65: every scalar is also registered as a single-row TVF
        // so DuckDB's FROM-clause dispatcher can find it. Emission
        // is unconditional because every bridge has scalars; the
        // emitted body probes for the table capability and skips
        // (with a diagnostic) when it isn't advertised.
        register_scalar_tvfs()?;
{aggregate_call}{table_call}{cast_call}{window_call}        Ok(types::Loadresult {{
            name: "{primary}".into(),
            version: Some("{version}".into()),
            requires: Vec::new().into(),
        }})
    }}
    fn reconfigure(
        _keys: Vec<String>,
    ) -> Result<bool, types::Duckerror> {{
        Ok(false)
    }}
    fn shutdown() -> Result<bool, types::Duckerror> {{
        Ok(false)
    }}
}}
"#);
    reveal_with_fuel(text::plain_to, 31);
    reveal_with_fuel(text::passes_to, 46);
    let b = seq![("bridge_struct"@, bridge_struct), ("logical_type_call"@, logical_type_call), ("aggregate_call"@, aggregate_call), ("table_call"@, table_call), ("cast_call"@, cast_call), ("window_call"@, window_call), ("primary"@, primary), ("version"@, version)];
    lemma_holes_bridge_struct_logical_type_call_aggregate_call_table_call_cast_call_window_call_primary_version(
        bridge_struct,
        logical_type_call,
        aggregate_call,
        table_call,
        cast_call,
        window_call,
        primary,
        version,
    );
    assert(words::has_piece(
        text::fill(lifecycle::LIFECYCLE@, b),
        logical_type_call + "        register_scalars()?;\n"@,
    )) by {
        let before = text::lemma_fill_reaches(s, b, 38);
        let past_38 = text::lemma_fill_passes(s, b, 38, 83);
        let past_83 = text::lemma_fill_passes(s, b, 83, 106);
        reveal_strlit("logical_type_call");
        assert(s.subrange(107, 124) =~= "logical_type_call"@);
        text::lemma_fill_hole(s, b, 106, "logical_type_call"@);
        reveal_strlit("        register_scalars()?;\n");
        assert(s.subrange(125, 154) =~= "        register_scalars()?;\n"@);
        text::lemma_fill_run(s, b, 125, "        register_scalars()?;\n"@);
        let rest = text::fill_from(s, b, 154);
        let part = logical_type_call + "        register_scalars()?;\n"@;
        assert((logical_type_call + ("        register_scalars()?;\n"@ + rest)) =~= part + rest);
        assert(before + (past_38 + (past_83 + (part + rest)))
            =~= (before + past_38 + past_83) + (part + rest));
        words::lemma_piece_between(before + past_38 + past_83, part, rest);
    }
}

#[verifier::rlimit(60)]
proof fn lemma_lifecycle_calls(
    bridge_struct: Seq<char>,
    logical_type_call: Seq<char>,
    aggregate_call: Seq<char>,
    table_call: Seq<char>,
    cast_call: Seq<char>,
    window_call: Seq<char>,
    primary: Seq<char>,
    version: Seq<char>,
)
    ensures
        words::has_piece(
            text::fill(
                lifecycle::LIFECYCLE@,
                seq![("bridge_struct"@, bridge_struct), ("logical_type_call"@, logical_type_call), ("aggregate_call"@, aggregate_call), ("table_call"@, table_call), ("cast_call"@, cast_call), ("window_call"@, window_call), ("primary"@, primary), ("version"@, version)],
            ),
            "        register_scalar_tvfs()?;\n"@ + aggregate_call + table_call + cast_call
                + window_call + "        Ok(types::Loadresult "@,
        ),
{
    let s = lifecycle::LIFECYCLE@;
    reveal_strlit(r#"
impl guest::Guest for {bridge_struct} {{
    fn load() -> Result<types::Loadresult, types::Duckerror> {{
{logical_type_call}        register_scalars()?;
        // #65: every scalar is also registered as a single-row TVF
        // so DuckDB's FROM-clause dispatcher can find it. Emission
        // is unconditional because every bridge has scalars; the
        // emitted body probes for the table capability and skips
        // (with a diagnostic) when it isn't advertised.
        register_scalar_tvfs()?;
{aggregate_call}{table_call}{cast_call}{window_call}        Ok(types::Loadresult {{
            name: "{primary}".into(),
            version: Some("{version}".into()),
            requires: Vec::new().into(),
        }})
    }}
    fn reconfigure(
        _keys: Vec<String>,
    ) -> Result<bool, types::Duckerror> {{
        Ok(false)
    }}
    fn shutdown() -> Result<bool, types::Duckerror> {{
        Ok(false)
    }}
}}
"#);
    reveal_with_fuel(text::plain_to, 31);
    reveal_with_fuel(text::passes_to, 46);
    let b = seq![("bridge_struct"@, bridge_struct), ("logical_type_call"@, logical_type_call), ("aggregate_call"@, aggregate_call), ("table_call"@, table_call), ("cast_call"@, cast_call), ("window_call"@, window_call), ("primary"@, primary), ("version"@, version)];
    lemma_holes_bridge_struct_logical_type_call_aggregate_call_table_call_cast_call_window_call_primary_version(
        bridge_struct,
        logical_type_call,
        aggregate_call,
        table_call,
        cast_call,
        window_call,
        primary,
        version,
    );
    assert(words::has_piece(
        text::fill(lifecycle::LIFECYCLE@, b),
        "        register_scalar_tvfs()?;\n"@ + aggregate_call + table_call + cast_call
            + window_call + "        Ok(types::Loadresult "@,
    )) by {
        let before = text::lemma_fill_reaches(s, b, 125);
        let past_125 = text::lemma_fill_passes(s, b, 125, 170);
        let past_170 = text::lemma_fill_passes(s, b, 170, 215);
        let past_215 = text::lemma_fill_passes(s, b, 215, 260);
        let past_260 = text::lemma_fill_passes(s, b, 260, 305);
        let past_305 = text::lemma_fill_passes(s, b, 305, 350);
        let past_350 = text::lemma_fill_passes(s, b, 350, 395);
        let past_395 = text::lemma_fill_passes(s, b, 395, 440);
        let past_440 = text::lemma_fill_passes(s, b, 440, 479);
        reveal_strlit("        register_scalar_tvfs()");
        assert(s.subrange(479, 509) =~= "        register_scalar_tvfs()"@);
        text::lemma_fill_run(s, b, 479, "        register_scalar_tvfs()"@);
        reveal_strlit("?;\n");
        assert(s.subrange(509, 512) =~= "?;\n"@);
        text::lemma_fill_run(s, b, 509, "?;\n"@);
        reveal_strlit("aggregate_call");
        assert(s.subrange(513, 527) =~= "aggregate_call"@);
        text::lemma_fill_hole(s, b, 512, "aggregate_call"@);
        reveal_strlit("table_call");
        assert(s.subrange(529, 539) =~= "table_call"@);
        text::lemma_fill_hole(s, b, 528, "table_call"@);
        reveal_strlit("cast_call");
        assert(s.subrange(541, 550) =~= "cast_call"@);
        text::lemma_fill_hole(s, b, 540, "cast_call"@);
        reveal_strlit("window_call");
        assert(s.subrange(552, 563) =~= "window_call"@);
        text::lemma_fill_hole(s, b, 551, "window_call"@);
        reveal_strlit("        Ok(types::Loadresult ");
        assert(s.subrange(564, 593) =~= "        Ok(types::Loadresult "@);
        text::lemma_fill_run(s, b, 564, "        Ok(types::Loadresult "@);
        let rest = text::fill_from(s, b, 593);
        let part = "        register_scalar_tvfs()?;\n"@ + aggregate_call + table_call + cast_call
            + window_call + "        Ok(types::Loadresult "@;
        reveal_strlit("        register_scalar_tvfs()?;\n");
        assert((
            "        register_scalar_tvfs()"@
                + (
                    "?;\n"@
                        + (
                            aggregate_call
                                + (
                                    table_call
                                        + (
                                            cast_call
                                                + (
                                                    window_call
                                                        + ("        Ok(types::Loadresult "@ + rest)
                                                )
                                        )
                                )
                        )
                )
        )
            =~= part + rest);
        assert(before
            + (
                past_125
                    + (
                        past_170
                            + (
                                past_215
                                    + (
                                        past_260
                                            + (
                                                past_305
                                                    + (
                                                        past_350
                                                            + (past_395 + (past_440 + (part + rest)))
                                                    )
                                            )
                                    )
                            )
                    )
            )
            =~= (
                before + past_125 + past_170 + past_215 + past_260 + past_305 + past_350 + past_395
                    + past_440
            ) + (part + rest));
        words::lemma_piece_between(
            before + past_125 + past_170 + past_215 + past_260 + past_305 + past_350 + past_395
                + past_440,
            part,
            rest,
        );
    }
}

#[verifier::rlimit(60)]
proof fn lemma_lifecycle_named(
    bridge_struct: Seq<char>,
    logical_type_call: Seq<char>,
    aggregate_call: Seq<char>,
    table_call: Seq<char>,
    cast_call: Seq<char>,
    window_call: Seq<char>,
    primary: Seq<char>,
    version: Seq<char>,
)
    ensures
        words::has_piece(
            text::fill(
                lifecycle::LIFECYCLE@,
                seq![("bridge_struct"@, bridge_struct), ("logical_type_call"@, logical_type_call), ("aggregate_call"@, aggregate_call), ("table_call"@, table_call), ("cast_call"@, cast_call), ("window_call"@, window_call), ("primary"@, primary), ("version"@, version)],
            ),
            "name: \""@ + primary + "\".into(),"@,
        ),
        words::has_piece(
            text::fill(
                lifecycle::LIFECYCLE@,
                seq![("bridge_struct"@, bridge_struct), ("logical_type_call"@, logical_type_call), ("aggregate_call"@, aggregate_call), ("table_call"@, table_call), ("cast_call"@, cast_call), ("window_call"@, window_call), ("primary"@, primary), ("version"@, version)],
            ),
            "version: Some(\""@ + version + "\".into()),"@,
        ),
{
    let s = lifecycle::LIFECYCLE@;
    reveal_strlit(r#"
impl guest::Guest for {bridge_struct} {{
    fn load() -> Result<types::Loadresult, types::Duckerror> {{
{logical_type_call}        register_scalars()?;
        // #65: every scalar is also registered as a single-row TVF
        // so DuckDB's FROM-clause dispatcher can find it. Emission
        // is unconditional because every bridge has scalars; the
        // emitted body probes for the table capability and skips
        // (with a diagnostic) when it isn't advertised.
        register_scalar_tvfs()?;
{aggregate_call}{table_call}{cast_call}{window_call}        Ok(types::Loadresult {{
            name: "{primary}".into(),
            version: Some("{version}".into()),
            requires: Vec::new().into(),
        }})
    }}
    fn reconfigure(
        _keys: Vec<String>,
    ) -> Result<bool, types::Duckerror> {{
        Ok(false)
    }}
    fn shutdown() -> Result<bool, types::Duckerror> {{
        Ok(false)
    }}
}}
"#);
    reveal_with_fuel(text::plain_to, 31);
    reveal_with_fuel(text::passes_to, 46);
    let b = seq![("bridge_struct"@, bridge_struct), ("logical_type_call"@, logical_type_call), ("aggregate_call"@, aggregate_call), ("table_call"@, table_call), ("cast_call"@, cast_call), ("window_call"@, window_call), ("primary"@, primary), ("version"@, version)];
    lemma_holes_bridge_struct_logical_type_call_aggregate_call_table_call_cast_call_window_call_primary_version(
        bridge_struct,
        logical_type_call,
        aggregate_call,
        table_call,
        cast_call,
        window_call,
        primary,
        version,
    );
    assert(words::has_piece(text::fill(lifecycle::LIFECYCLE@, b), "name: \""@ + primary + "\".into(),"@)) by {
        let before = text::lemma_fill_reaches(s, b, 564);
        let past_564 = text::lemma_fill_passes(s, b, 564, 608);
        reveal_strlit("name: \"");
        assert(s.subrange(608, 615) =~= "name: \""@);
        text::lemma_fill_run(s, b, 608, "name: \""@);
        reveal_strlit("primary");
        assert(s.subrange(616, 623) =~= "primary"@);
        text::lemma_fill_hole(s, b, 615, "primary"@);
        reveal_strlit("\".into(),");
        assert(s.subrange(624, 633) =~= "\".into(),"@);
        text::lemma_fill_run(s, b, 624, "\".into(),"@);
        let rest = text::fill_from(s, b, 633);
        let part = "name: \""@ + primary + "\".into(),"@;
        assert(("name: \""@ + (primary + ("\".into(),"@ + rest))) =~= part + rest);
        assert(before + (past_564 + (part + rest)) =~= (before + past_564) + (part + rest));
        words::lemma_piece_between(before + past_564, part, rest);
    }
    assert(words::has_piece(
        text::fill(lifecycle::LIFECYCLE@, b),
        "version: Some(\""@ + version + "\".into()),"@,
    )) by {
        let before = text::lemma_fill_reaches(s, b, 624);
        reveal_strlit("\".into(),\n            ");
        assert(s.subrange(624, 646) =~= "\".into(),\n            "@);
        text::lemma_fill_run(s, b, 624, "\".into(),\n            "@);
        reveal_strlit("version: Some(\"");
        assert(s.subrange(646, 661) =~= "version: Some(\""@);
        text::lemma_fill_run(s, b, 646, "version: Some(\""@);
        reveal_strlit("version");
        assert(s.subrange(662, 669) =~= "version"@);
        text::lemma_fill_hole(s, b, 661, "version"@);
        reveal_strlit("\".into()),");
        assert(s.subrange(670, 680) =~= "\".into()),"@);
        text::lemma_fill_run(s, b, 670, "\".into()),"@);
        let rest = text::fill_from(s, b, 680);
        let part = "version: Some(\""@ + version + "\".into()),"@;
        assert(("version: Some(\""@ + (version + ("\".into()),"@ + rest))) =~= part + rest);
        assert(before + ("\".into(),\n            "@ + (part + rest))
            =~= (before + "\".into(),\n            "@) + (part + rest));
        words::lemma_piece_between(before + "\".into(),\n            "@, part, rest);
    }
}

proof fn lemma_import(ns: Seq<char>, iface: Seq<char>, ver: Seq<char>)
    ensures
        text::fill(worlds::IMPORT@, seq![("ns"@, ns), ("iface"@, iface), ("ver"@, ver)])
            == "    import "@ + ns + "/"@ + iface + "@"@ + ver + ";\n"@,
{
    let s = worlds::IMPORT@;
    let b = seq![("ns"@, ns), ("iface"@, iface), ("ver"@, ver)];
    reveal_strlit("    import {ns}/{iface}@{ver};\n");
    reveal_with_fuel(text::plain_to, 31);
    lemma_holes_ns_iface_ver(ns, iface, ver);
    reveal_strlit("    import ");
    assert(s.subrange(0, 11) =~= "    import "@);
    text::lemma_fill_run(s, b, 0, "    import "@);
    reveal_strlit("ns");
    assert(s.subrange(12, 14) =~= "ns"@);
    text::lemma_fill_hole(s, b, 11, "ns"@);
    reveal_strlit("/");
    assert(s.subrange(15, 16) =~= "/"@);
    text::lemma_fill_run(s, b, 15, "/"@);
    reveal_strlit("iface");
    assert(s.subrange(17, 22) =~= "iface"@);
    text::lemma_fill_hole(s, b, 16, "iface"@);
    reveal_strlit("@");
    assert(s.subrange(23, 24) =~= "@"@);
    text::lemma_fill_run(s, b, 23, "@"@);
    reveal_strlit("ver");
    assert(s.subrange(25, 28) =~= "ver"@);
    text::lemma_fill_hole(s, b, 24, "ver"@);
    reveal_strlit(";\n");
    assert(s.subrange(29, 31) =~= ";\n"@);
    text::lemma_fill_run(s, b, 29, ";\n"@);
    assert((
        "    import "@
            + (ns + ("/"@ + (iface + ("@"@ + (ver + (";\n"@ + text::fill_from(s, b, 31)))))))
    )
        =~= "    import "@ + ns + "/"@ + iface + "@"@ + ver + ";\n"@);
}

proof fn lemma_export(ns: Seq<char>, iface: Seq<char>, ver: Seq<char>)
    ensures
        text::fill(worlds::EXPORT@, seq![("ns"@, ns), ("iface"@, iface), ("ver"@, ver)])
            == "    export "@ + ns + "/"@ + iface + "@"@ + ver + ";\n"@,
{
    let s = worlds::EXPORT@;
    let b = seq![("ns"@, ns), ("iface"@, iface), ("ver"@, ver)];
    reveal_strlit("    export {ns}/{iface}@{ver};\n");
    reveal_with_fuel(text::plain_to, 31);
    lemma_holes_ns_iface_ver(ns, iface, ver);
    reveal_strlit("    export ");
    assert(s.subrange(0, 11) =~= "    export "@);
    text::lemma_fill_run(s, b, 0, "    export "@);
    reveal_strlit("ns");
    assert(s.subrange(12, 14) =~= "ns"@);
    text::lemma_fill_hole(s, b, 11, "ns"@);
    reveal_strlit("/");
    assert(s.subrange(15, 16) =~= "/"@);
    text::lemma_fill_run(s, b, 15, "/"@);
    reveal_strlit("iface");
    assert(s.subrange(17, 22) =~= "iface"@);
    text::lemma_fill_hole(s, b, 16, "iface"@);
    reveal_strlit("@");
    assert(s.subrange(23, 24) =~= "@"@);
    text::lemma_fill_run(s, b, 23, "@"@);
    reveal_strlit("ver");
    assert(s.subrange(25, 28) =~= "ver"@);
    text::lemma_fill_hole(s, b, 24, "ver"@);
    reveal_strlit(";\n");
    assert(s.subrange(29, 31) =~= ";\n"@);
    text::lemma_fill_run(s, b, 29, ";\n"@);
    assert((
        "    export "@
            + (ns + ("/"@ + (iface + ("@"@ + (ver + (";\n"@ + text::fill_from(s, b, 31)))))))
    )
        =~= "    export "@ + ns + "/"@ + iface + "@"@ + ver + ";\n"@);
}

} // verus!
