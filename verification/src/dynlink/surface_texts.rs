//! What the texts of a bridge crate say of its functions and tables.

use vstd::prelude::*;
use vstd::string::*;

use crate::dynlink::emit_dynlink::{self, id_line, Alias, FnKind};
use crate::dynlink::table_sigs::{self, TableSigView};
use crate::dynlink::templates as t;
use crate::order;
use crate::text;
use crate::words;

verus! {

/// The schema of a virtual table whose columns are known lists them in the order of the
/// signature, each under its own name and with the type of its own token: integers for booleans
/// and whole numbers, reals for floating-point numbers, texts for texts, and blobs for all others.
/// Behind them stands one hidden column for each parameter, and at least one.
pub proof fn law_schema_keeps_columns(
    sig: TableSigView,
    columns: Seq<(Seq<char>, Seq<char>)>,
    parts: Seq<Seq<char>>,
)
    requires
        sig.columns == Some(columns),
        columns.len() > 0,
        parts.len() == columns.len() + if sig.params.len() == 0 {
            1
        } else {
            sig.params.len()
        },
        forall|k: int|
            0 <= k < columns.len() ==> #[trigger] parts[k] == "\\\""@ + words::escaped(
                columns[k].0,
            ) + "\\\" "@ + if columns[k].1 == "boolean"@ || columns[k].1 == "int64"@ {
                "INTEGER"@
            } else if columns[k].1 == "float64"@ {
                "REAL"@
            } else if columns[k].1 == "text"@ {
                "TEXT"@
            } else {
                "BLOB"@
            },
        forall|k: int|
            columns.len() <= k < parts.len() ==> #[trigger] parts[k] == "\\\"_arg"@ + words::decimal(
                (k - columns.len()) as nat,
            ) + "\\\" HIDDEN"@,
    ensures
        forall|k: int|
            0 <= k < parts.len() ==> #[trigger] emit_dynlink::schema_parts(
                columns,
                sig.params.len(),
            )[k] == parts[k],
        emit_dynlink::schema(Some(sig)) == "CREATE TABLE x("@ + words::joined(parts, ", "@)
            + ")"@,
{
    let all = emit_dynlink::schema_parts(columns, sig.params.len());
    assert forall|k: int| 0 <= k < parts.len() implies #[trigger] all[k] == parts[k] by {
        if k < columns.len() {
            lemma_schema_column(
                words::escaped(columns[k].0),
                emit_dynlink::sqlite_type(columns[k].1),
            );
        } else {
            lemma_schema_arg(words::decimal((k - columns.len()) as nat));
        }
    }
    assert(all =~= parts);
}

/// The arm of a table answers with the schema of the signature that was told last under the name
/// of the table, and with that of an unknown one where none was told.
pub proof fn law_connect_arm_answers(
    name: Seq<char>,
    sigs: Seq<(Seq<char>, TableSigView)>,
    id: nat,
    k: int,
)
    requires
        0 <= k < sigs.len() ==> sigs[k].0 == name,
        forall|j: int| (k < j < sigs.len() || !(0 <= k < sigs.len())) && 0 <= j < sigs.len()
            ==> (#[trigger] sigs[j]).0 != name,
    ensures
        emit_dynlink::connect_arm(name, sigs, id) == "                "@ + words::decimal(id)
            + " => Ok(\""@ + emit_dynlink::schema(
            if 0 <= k < sigs.len() {
                Some(sigs[k].1)
            } else {
                None
            },
        ) + "\".to_string()),\n"@,
{
    lemma_sig_told(sigs, name, sigs.len(), k);
    lemma_connect_arm(
        words::decimal(id),
        emit_dynlink::schema(table_sigs::sig_of(sigs, name, sigs.len())),
    );
}

proof fn lemma_sig_told(sigs: Seq<(Seq<char>, TableSigView)>, name: Seq<char>, n: nat, k: int)
    requires
        n <= sigs.len(),
        0 <= k < n ==> sigs[k].0 == name,
        forall|j: int| (k < j < n || !(0 <= k < n)) && 0 <= j < n ==> (#[trigger] sigs[j]).0 != name,
    ensures
        table_sigs::sig_of(sigs, name, n) == if 0 <= k < n {
            Some(sigs[k].1)
        } else {
            None
        },
    decreases n,
{
    if n > 0 && k != n - 1 {
        assert(sigs[n - 1].0 != name);
        lemma_sig_told(sigs, name, (n - 1) as nat, k);
    }
}

/// The lines of a function give its number and its name; they tell scalars, aggregates, windows
/// and tables apart, and the arm of a number gives back the name.
pub proof fn law_listed_lines(name: Seq<char>, id: nat)
    ensures
        id_line(t::ID_ARM@, name, id) == "        "@ + words::decimal(id) + " => Some(\""@
            + words::escaped(name) + "\"),\n"@,
        ({
            let s = id_line(t::SCALAR_SPEC@, name, id);
            &&& words::has_piece(s, "ScalarFunctionSpec "@)
            &&& words::has_piece(s, "id: "@ + words::decimal(id) + ","@)
            &&& words::has_piece(s, "name: \""@ + words::escaped(name) + "\".to_string(),"@)
            &&& words::has_piece(s, "num_args: -1,"@)
            &&& words::has_piece(s, "func_flags: FunctionFlags::DETERMINISTIC,"@)
        }),
        ({
            let s = id_line(t::AGGREGATE_SPEC@, name, id);
            &&& words::has_piece(s, "AggregateFunctionSpec "@)
            &&& words::has_piece(s, "id: "@ + words::decimal(id) + ","@)
            &&& words::has_piece(s, "name: \""@ + words::escaped(name) + "\".to_string(),"@)
            &&& words::has_piece(s, "num_args: -1,"@)
            &&& words::has_piece(s, "func_flags: FunctionFlags::empty(),"@)
            &&& words::has_piece(s, "is_window: false,"@)
        }),
        ({
            let s = id_line(t::WINDOW_SPEC@, name, id);
            &&& words::has_piece(s, "AggregateFunctionSpec "@)
            &&& words::has_piece(s, "id: "@ + words::decimal(id) + ","@)
            &&& words::has_piece(s, "name: \""@ + words::escaped(name) + "\".to_string(),"@)
            &&& words::has_piece(s, "num_args: -1,"@)
            &&& words::has_piece(s, "func_flags: FunctionFlags::empty(),"@)
            &&& words::has_piece(s, "is_window: true,"@)
        }),
        ({
            let s = id_line(t::VTAB_SPEC@, name, id);
            &&& words::has_piece(s, "VtabSpec "@)
            &&& words::has_piece(s, "id: "@ + words::decimal(id) + ","@)
            &&& words::has_piece(s, "name: \""@ + words::escaped(name) + "\".to_string(),"@)
            &&& words::has_piece(s, "eponymous: true,"@)
            &&& words::has_piece(s, "mutable: false,"@)
            &&& words::has_piece(s, "batched: false,"@)
        }),
{
    let d = words::decimal(id);
    let e = words::escaped(name);
    lemma_id_arm(d, e);
    lemma_scalar_spec(d, e);
    lemma_aggregate_spec(d, e);
    lemma_window_spec(d, e);
    lemma_vtab_spec(d, e);
}

/// An alias has an arm that leads to its name where both the alias and the name are known, as
/// scalars or as tables, and none where one of them is not.
pub proof fn law_alias_arms(
    aliases: Seq<text::Binding>,
    scalars: Seq<Seq<char>>,
    tables: Seq<Seq<char>>,
    n: nat,
    k: int,
)
    requires
        0 <= k < n <= aliases.len(),
    ensures
        ({
            let known = |s: Seq<char>| scalars.contains(s) || tables.contains(s);
            let before = emit_dynlink::alias_arms(aliases, scalars, tables, k as nat);
            let with = emit_dynlink::alias_arms(aliases, scalars, tables, (k + 1) as nat);
            let arm = "            \""@ + words::escaped(aliases[k].0) + "\" => \""@
                + words::escaped(aliases[k].1) + "\",\n"@;
            &&& known(aliases[k].0) && known(aliases[k].1) ==> with == before + arm
                && words::has_piece(emit_dynlink::alias_arms(aliases, scalars, tables, n), arm)
            &&& !(known(aliases[k].0) && known(aliases[k].1)) ==> with == before
        }),
    decreases n,
{
    let a = words::escaped(aliases[k].0);
    let c = words::escaped(aliases[k].1);
    let arm = "            \""@ + a + "\" => \""@ + c + "\",\n"@;
    lemma_alias_arm(a, c);
    if k == n - 1 {
        words::lemma_piece_added(emit_dynlink::alias_arms(aliases, scalars, tables, k as nat), arm);
    } else {
        law_alias_arms(aliases, scalars, tables, (n - 1) as nat, k);
        let before = emit_dynlink::alias_arms(aliases, scalars, tables, (n - 1) as nat);
        let last = text::fill(
            t::ALIAS_ARM@,
            seq![
                ("a"@, words::escaped(aliases[n - 1].0)),
                ("c"@, words::escaped(aliases[n - 1].1)),
            ],
        );
        words::lemma_pieces_kept(before, last);
    }
}

/// The functions of a kind are listed by name, each once and in order: a name is listed under a kind
/// exactly where a function of that kind bears it.
pub proof fn law_functions_by_kind(
    functions: Seq<(FnKind, String)>,
    kind: FnKind,
    name: Seq<char>,
)
    ensures
        order::ordered(emit_dynlink::names_of_kind(functions, kind)),
        emit_dynlink::names_of_kind(functions, kind).contains(name) <==> exists|k: int|
            0 <= k < functions.len() && (#[trigger] functions[k]).0 == kind && functions[k].1@
                == name,
{
    lemma_kind_names(functions, kind, functions.len(), name);
    order::law_sorted_set(emit_dynlink::kind_names(functions, kind, functions.len()));
}

proof fn lemma_kind_names(functions: Seq<(FnKind, String)>, kind: FnKind, n: nat, name: Seq<char>)
    requires
        n <= functions.len(),
    ensures
        emit_dynlink::kind_names(functions, kind, n).contains(name) <==> exists|k: int|
            0 <= k < n && (#[trigger] functions[k]).0 == kind && functions[k].1@ == name,
    decreases n,
{
    if n > 0 {
        lemma_kind_names(functions, kind, (n - 1) as nat, name);
        let before = emit_dynlink::kind_names(functions, kind, (n - 1) as nat);
        let all = emit_dynlink::kind_names(functions, kind, n);
        if functions[n - 1].0 == kind {
            let last = functions[n - 1].1@;
            assert(all == before.push(last));
            assert(all[before.len() as int] == last);
            if before.contains(name) {
                let j = choose|j: int| 0 <= j < before.len() && before[j] == name;
                assert(all[j] == name);
            }
            if all.contains(name) {
                let j = choose|j: int| 0 <= j < all.len() && all[j] == name;
                if j < before.len() {
                    assert(before[j] == name);
                }
            }
        }
    }
}

/// An alias is taken over, with its name, where it is one of a scalar or of a table function, and
/// left out where it is not.
pub proof fn law_aliases_taken(aliases: Seq<Alias>, n: nat)
    requires
        0 < n <= aliases.len(),
    ensures
        ({
            let a = aliases[n - 1];
            let before = emit_dynlink::taken_aliases(aliases, (n - 1) as nat);
            emit_dynlink::taken_aliases(aliases, n) == if a.kind@ == "scalar"@ || a.kind@
                == "table_function"@ {
                before.push((a.alias@, a.canonical@))
            } else {
                before
            }
        }),
{
}

/// The manifest lists the aggregates and window functions where there are any, and the tables where
/// there are any; where there are none it says so, and nothing else is written of them.
pub proof fn law_surfaces(
    aggregates: Seq<Seq<char>>,
    windows: Seq<Seq<char>>,
    tables: Seq<Seq<char>>,
    sigs: Seq<(Seq<char>, TableSigView)>,
)
    ensures
        ({
            let s = emit_dynlink::aggregate_surface(aggregates, windows);
            let none = aggregates.len() == 0 && windows.len() == 0;
            &&& none ==> s.field == "aggregate_functions: vec![],"@ && s.import.len() == 0
                && s.local.len() == 0 && s.dispatch.len() == 0
            &&& !none ==> s.field == "aggregate_functions,"@ && words::has_piece(
                s.local,
                "let aggregate_functions: Vec<AggregateFunctionSpec> = vec![\n"@
                    + emit_dynlink::aggregate_specs(aggregates, windows) + "        ];"@,
            )
        }),
        ({
            let s = emit_dynlink::vtab_surface(tables, sigs);
            &&& tables.len() == 0 ==> s.field == "vtabs: vec![],"@ && s.import.len() == 0
                && s.local.len() == 0 && s.dispatch.len() == 0
            &&& tables.len() > 0 ==> s.field == "vtabs,"@ && words::has_piece(
                s.local,
                "let vtabs: Vec<VtabSpec> = vec![\n"@ + emit_dynlink::vtab_specs(tables)
                    + "        ];"@,
            )
        }),
{
    lemma_aggregate_local(emit_dynlink::aggregate_specs(aggregates, windows));
    lemma_vtab_local(emit_dynlink::vtab_specs(tables));
}

proof fn lemma_holes_escaped_ty(escaped: Seq<char>, ty: Seq<char>)
    ensures
        ({
            let b = seq![("escaped"@, escaped), ("ty"@, ty)];
            &&& text::lookup_from(b, "escaped"@, 0) == escaped
            &&& text::lookup_from(b, "ty"@, 0) == ty
        }),
{
    reveal_strlit("escaped");
    reveal_strlit("ty");
    reveal_with_fuel(text::lookup_from, 3);
    assert("escaped"@.len() != "ty"@.len());
}

proof fn lemma_holes_i(i: Seq<char>)
    ensures
        ({
            let b = seq![("i"@, i)];
            &&& text::lookup_from(b, "i"@, 0) == i
        }),
{
    reveal_strlit("i");
    reveal_with_fuel(text::lookup_from, 2);

}

proof fn lemma_holes_id_schema(id: Seq<char>, schema: Seq<char>)
    ensures
        ({
            let b = seq![("id"@, id), ("schema"@, schema)];
            &&& text::lookup_from(b, "id"@, 0) == id
            &&& text::lookup_from(b, "schema"@, 0) == schema
        }),
{
    reveal_strlit("id");
    reveal_strlit("schema");
    reveal_with_fuel(text::lookup_from, 3);
    assert("id"@.len() != "schema"@.len());
}

proof fn lemma_holes_id_escaped(id: Seq<char>, escaped: Seq<char>)
    ensures
        ({
            let b = seq![("id"@, id), ("escaped"@, escaped)];
            &&& text::lookup_from(b, "id"@, 0) == id
            &&& text::lookup_from(b, "escaped"@, 0) == escaped
        }),
{
    reveal_strlit("id");
    reveal_strlit("escaped");
    reveal_with_fuel(text::lookup_from, 3);
    assert("id"@.len() != "escaped"@.len());
}

proof fn lemma_holes_a_c(a: Seq<char>, c: Seq<char>)
    ensures
        ({
            let b = seq![("a"@, a), ("c"@, c)];
            &&& text::lookup_from(b, "a"@, 0) == a
            &&& text::lookup_from(b, "c"@, 0) == c
        }),
{
    reveal_strlit("a");
    reveal_strlit("c");
    reveal_with_fuel(text::lookup_from, 3);
    assert("a"@[0] != "c"@[0]);
}

proof fn lemma_holes_aggregate_specs(aggregate_specs: Seq<char>)
    ensures
        ({
            let b = seq![("aggregate_specs"@, aggregate_specs)];
            &&& text::lookup_from(b, "aggregate_specs"@, 0) == aggregate_specs
        }),
{
    reveal_strlit("aggregate_specs");
    reveal_with_fuel(text::lookup_from, 2);

}

proof fn lemma_holes_vtab_specs(vtab_specs: Seq<char>)
    ensures
        ({
            let b = seq![("vtab_specs"@, vtab_specs)];
            &&& text::lookup_from(b, "vtab_specs"@, 0) == vtab_specs
        }),
{
    reveal_strlit("vtab_specs");
    reveal_with_fuel(text::lookup_from, 2);

}

proof fn lemma_schema_column(escaped: Seq<char>, ty: Seq<char>)
    ensures
        text::fill(t::SCHEMA_COLUMN@, seq![("escaped"@, escaped), ("ty"@, ty)])
            == "\\\""@ + escaped + "\\\" "@ + ty,
{
    let s = t::SCHEMA_COLUMN@;
    let b = seq![("escaped"@, escaped), ("ty"@, ty)];
    reveal_strlit("\\\"{escaped}\\\" {ty}");
    reveal_with_fuel(text::plain_to, 31);
    lemma_holes_escaped_ty(escaped, ty);
    reveal_strlit("\\\"");
    assert(s.subrange(0, 2) =~= "\\\""@);
    text::lemma_fill_run(s, b, 0, "\\\""@);
    reveal_strlit("escaped");
    assert(s.subrange(3, 10) =~= "escaped"@);
    text::lemma_fill_hole(s, b, 2, "escaped"@);
    reveal_strlit("\\\" ");
    assert(s.subrange(11, 14) =~= "\\\" "@);
    text::lemma_fill_run(s, b, 11, "\\\" "@);
    reveal_strlit("ty");
    assert(s.subrange(15, 17) =~= "ty"@);
    text::lemma_fill_hole(s, b, 14, "ty"@);
    assert(("\\\""@ + (escaped + ("\\\" "@ + (ty + text::fill_from(s, b, 18)))))
        =~= "\\\""@ + escaped + "\\\" "@ + ty);
}

proof fn lemma_schema_arg(i: Seq<char>)
    ensures
        text::fill(t::SCHEMA_ARG@, seq![("i"@, i)]) == "\\\"_arg"@ + i + "\\\" HIDDEN"@,
{
    let s = t::SCHEMA_ARG@;
    let b = seq![("i"@, i)];
    reveal_strlit("\\\"_arg{i}\\\" HIDDEN");
    reveal_with_fuel(text::plain_to, 31);
    lemma_holes_i(i);
    reveal_strlit("\\\"_arg");
    assert(s.subrange(0, 6) =~= "\\\"_arg"@);
    text::lemma_fill_run(s, b, 0, "\\\"_arg"@);
    reveal_strlit("i");
    assert(s.subrange(7, 8) =~= "i"@);
    text::lemma_fill_hole(s, b, 6, "i"@);
    reveal_strlit("\\\" HIDDEN");
    assert(s.subrange(9, 18) =~= "\\\" HIDDEN"@);
    text::lemma_fill_run(s, b, 9, "\\\" HIDDEN"@);
    assert(("\\\"_arg"@ + (i + ("\\\" HIDDEN"@ + text::fill_from(s, b, 18))))
        =~= "\\\"_arg"@ + i + "\\\" HIDDEN"@);
}

proof fn lemma_connect_arm(id: Seq<char>, schema: Seq<char>)
    ensures
        text::fill(t::CONNECT_ARM@, seq![("id"@, id), ("schema"@, schema)])
            == "                "@ + id + " => Ok(\""@ + schema + "\".to_string()),\n"@,
{
    let s = t::CONNECT_ARM@;
    let b = seq![("id"@, id), ("schema"@, schema)];
    reveal_strlit("                {id} => Ok(\"{schema}\".to_string()),\n");
    reveal_with_fuel(text::plain_to, 31);
    lemma_holes_id_schema(id, schema);
    reveal_strlit("                ");
    assert(s.subrange(0, 16) =~= "                "@);
    text::lemma_fill_run(s, b, 0, "                "@);
    reveal_strlit("id");
    assert(s.subrange(17, 19) =~= "id"@);
    text::lemma_fill_hole(s, b, 16, "id"@);
    reveal_strlit(" => Ok(\"");
    assert(s.subrange(20, 28) =~= " => Ok(\""@);
    text::lemma_fill_run(s, b, 20, " => Ok(\""@);
    reveal_strlit("schema");
    assert(s.subrange(29, 35) =~= "schema"@);
    text::lemma_fill_hole(s, b, 28, "schema"@);
    reveal_strlit("\".to_string()),\n");
    assert(s.subrange(36, 52) =~= "\".to_string()),\n"@);
    text::lemma_fill_run(s, b, 36, "\".to_string()),\n"@);
    assert((
        "                "@
            + (id + (" => Ok(\""@ + (schema + ("\".to_string()),\n"@ + text::fill_from(s, b, 52)))))
    )
        =~= "                "@ + id + " => Ok(\""@ + schema + "\".to_string()),\n"@);
}

proof fn lemma_id_arm(id: Seq<char>, escaped: Seq<char>)
    ensures
        text::fill(t::ID_ARM@, seq![("id"@, id), ("escaped"@, escaped)])
            == "        "@ + id + " => Some(\""@ + escaped + "\"),\n"@,
{
    let s = t::ID_ARM@;
    let b = seq![("id"@, id), ("escaped"@, escaped)];
    reveal_strlit("        {id} => Some(\"{escaped}\"),\n");
    reveal_with_fuel(text::plain_to, 31);
    lemma_holes_id_escaped(id, escaped);
    reveal_strlit("        ");
    assert(s.subrange(0, 8) =~= "        "@);
    text::lemma_fill_run(s, b, 0, "        "@);
    reveal_strlit("id");
    assert(s.subrange(9, 11) =~= "id"@);
    text::lemma_fill_hole(s, b, 8, "id"@);
    reveal_strlit(" => Some(\"");
    assert(s.subrange(12, 22) =~= " => Some(\""@);
    text::lemma_fill_run(s, b, 12, " => Some(\""@);
    reveal_strlit("escaped");
    assert(s.subrange(23, 30) =~= "escaped"@);
    text::lemma_fill_hole(s, b, 22, "escaped"@);
    reveal_strlit("\"),\n");
    assert(s.subrange(31, 35) =~= "\"),\n"@);
    text::lemma_fill_run(s, b, 31, "\"),\n"@);
    assert(("        "@ + (id + (" => Some(\""@ + (escaped + ("\"),\n"@ + text::fill_from(s, b, 35))))))
        =~= "        "@ + id + " => Some(\""@ + escaped + "\"),\n"@);
}

proof fn lemma_alias_arm(a: Seq<char>, c: Seq<char>)
    ensures
        text::fill(t::ALIAS_ARM@, seq![("a"@, a), ("c"@, c)])
            == "            \""@ + a + "\" => \""@ + c + "\",\n"@,
{
    let s = t::ALIAS_ARM@;
    let b = seq![("a"@, a), ("c"@, c)];
    reveal_strlit("            \"{a}\" => \"{c}\",\n");
    reveal_with_fuel(text::plain_to, 31);
    lemma_holes_a_c(a, c);
    reveal_strlit("            \"");
    assert(s.subrange(0, 13) =~= "            \""@);
    text::lemma_fill_run(s, b, 0, "            \""@);
    reveal_strlit("a");
    assert(s.subrange(14, 15) =~= "a"@);
    text::lemma_fill_hole(s, b, 13, "a"@);
    reveal_strlit("\" => \"");
    assert(s.subrange(16, 22) =~= "\" => \""@);
    text::lemma_fill_run(s, b, 16, "\" => \""@);
    reveal_strlit("c");
    assert(s.subrange(23, 24) =~= "c"@);
    text::lemma_fill_hole(s, b, 22, "c"@);
    reveal_strlit("\",\n");
    assert(s.subrange(25, 28) =~= "\",\n"@);
    text::lemma_fill_run(s, b, 25, "\",\n"@);
    assert(("            \""@ + (a + ("\" => \""@ + (c + ("\",\n"@ + text::fill_from(s, b, 28))))))
        =~= "            \""@ + a + "\" => \""@ + c + "\",\n"@);
}

proof fn lemma_aggregate_local(aggregate_specs: Seq<char>)
    ensures
        words::has_piece(
            text::fill(t::AGGREGATE_LOCAL@, seq![("aggregate_specs"@, aggregate_specs)]),
            "let aggregate_functions: Vec<AggregateFunctionSpec> = vec![\n"@ + aggregate_specs
                + "        ];"@,
        ),
{
    let s = t::AGGREGATE_LOCAL@;
    reveal_strlit(r#"        let aggregate_functions: Vec<AggregateFunctionSpec> = vec![
{aggregate_specs}        ];
"#);
    reveal_with_fuel(text::plain_to, 31);
    let b = seq![("aggregate_specs"@, aggregate_specs)];
    lemma_holes_aggregate_specs(aggregate_specs);
    assert(words::has_piece(
        text::fill(t::AGGREGATE_LOCAL@, b),
        "let aggregate_functions: Vec<AggregateFunctionSpec> = vec![\n"@ + aggregate_specs
            + "        ];"@,
    )) by {
        let before = text::lemma_fill_reaches(s, b, 0);
        reveal_strlit("        ");
        assert(s.subrange(0, 8) =~= "        "@);
        text::lemma_fill_run(s, b, 0, "        "@);
        reveal_strlit("let aggregate_functions: Vec<A");
        assert(s.subrange(8, 38) =~= "let aggregate_functions: Vec<A"@);
        text::lemma_fill_run(s, b, 8, "let aggregate_functions: Vec<A"@);
        reveal_strlit("ggregateFunctionSpec> = vec![\n");
        assert(s.subrange(38, 68) =~= "ggregateFunctionSpec> = vec![\n"@);
        text::lemma_fill_run(s, b, 38, "ggregateFunctionSpec> = vec![\n"@);
        reveal_strlit("aggregate_specs");
        assert(s.subrange(69, 84) =~= "aggregate_specs"@);
        text::lemma_fill_hole(s, b, 68, "aggregate_specs"@);
        reveal_strlit("        ];");
        assert(s.subrange(85, 95) =~= "        ];"@);
        text::lemma_fill_run(s, b, 85, "        ];"@);
        let rest = text::fill_from(s, b, 95);
        let part = "let aggregate_functions: Vec<AggregateFunctionSpec> = vec![\n"@ + aggregate_specs
            + "        ];"@;
        reveal_strlit("let aggregate_functions: Vec<AggregateFunctionSpec> = vec![\n");
        assert((
            "let aggregate_functions: Vec<A"@
                + ("ggregateFunctionSpec> = vec![\n"@ + (aggregate_specs + ("        ];"@ + rest)))
        )
            =~= part + rest);
        assert(before + ("        "@ + (part + rest)) =~= (before + "        "@) + (part + rest));
        words::lemma_piece_between(before + "        "@, part, rest);
    }
}

proof fn lemma_vtab_local(vtab_specs: Seq<char>)
    ensures
        words::has_piece(
            text::fill(t::VTAB_LOCAL@, seq![("vtab_specs"@, vtab_specs)]),
            "let vtabs: Vec<VtabSpec> = vec![\n"@ + vtab_specs + "        ];"@,
        ),
{
    let s = t::VTAB_LOCAL@;
    reveal_strlit(r#"        let vtabs: Vec<VtabSpec> = vec![
{vtab_specs}        ];
"#);
    reveal_with_fuel(text::plain_to, 31);
    let b = seq![("vtab_specs"@, vtab_specs)];
    lemma_holes_vtab_specs(vtab_specs);
    assert(words::has_piece(
        text::fill(t::VTAB_LOCAL@, b),
        "let vtabs: Vec<VtabSpec> = vec![\n"@ + vtab_specs + "        ];"@,
    )) by {
        let before = text::lemma_fill_reaches(s, b, 0);
        reveal_strlit("        ");
        assert(s.subrange(0, 8) =~= "        "@);
        text::lemma_fill_run(s, b, 0, "        "@);
        reveal_strlit("let vtabs: Vec<VtabSpec> = vec");
        assert(s.subrange(8, 38) =~= "let vtabs: Vec<VtabSpec> = vec"@);
        text::lemma_fill_run(s, b, 8, "let vtabs: Vec<VtabSpec> = vec"@);
        reveal_strlit("![\n");
        assert(s.subrange(38, 41) =~= "![\n"@);
        text::lemma_fill_run(s, b, 38, "![\n"@);
        reveal_strlit("vtab_specs");
        assert(s.subrange(42, 52) =~= "vtab_specs"@);
        text::lemma_fill_hole(s, b, 41, "vtab_specs"@);
        reveal_strlit("        ];");
        assert(s.subrange(53, 63) =~= "        ];"@);
        text::lemma_fill_run(s, b, 53, "        ];"@);
        let rest = text::fill_from(s, b, 63);
        let part = "let vtabs: Vec<VtabSpec> = vec![\n"@ + vtab_specs + "        ];"@;
        reveal_strlit("let vtabs: Vec<VtabSpec> = vec![\n");
        assert(("let vtabs: Vec<VtabSpec> = vec"@ + ("![\n"@ + (vtab_specs + ("        ];"@ + rest))))
            =~= part + rest);
        assert(before + ("        "@ + (part + rest)) =~= (before + "        "@) + (part + rest));
        words::lemma_piece_between(before + "        "@, part, rest);
    }
}

proof fn lemma_scalar_spec(id: Seq<char>, escaped: Seq<char>)
    ensures
        words::has_piece(
            text::fill(t::SCALAR_SPEC@, seq![("id"@, id), ("escaped"@, escaped)]),
            "ScalarFunctionSpec "@,
        ),
        words::has_piece(
            text::fill(t::SCALAR_SPEC@, seq![("id"@, id), ("escaped"@, escaped)]),
            "id: "@ + id + ","@,
        ),
        words::has_piece(
            text::fill(t::SCALAR_SPEC@, seq![("id"@, id), ("escaped"@, escaped)]),
            "name: \""@ + escaped + "\".to_string(),"@,
        ),
        words::has_piece(
            text::fill(t::SCALAR_SPEC@, seq![("id"@, id), ("escaped"@, escaped)]),
            "num_args: -1,"@,
        ),
        words::has_piece(
            text::fill(t::SCALAR_SPEC@, seq![("id"@, id), ("escaped"@, escaped)]),
            "func_flags: FunctionFlags::DETERMINISTIC,"@,
        ),
{
    let s = t::SCALAR_SPEC@;
    reveal_strlit(r#"            ScalarFunctionSpec {{
                id: {id},
                name: "{escaped}".to_string(),
                num_args: -1,
                func_flags: FunctionFlags::DETERMINISTIC,
            }},
"#);
    reveal_with_fuel(text::plain_to, 31);
    reveal_with_fuel(text::passes_to, 46);
    let b = seq![("id"@, id), ("escaped"@, escaped)];
    lemma_holes_id_escaped(id, escaped);
    assert(words::has_piece(text::fill(t::SCALAR_SPEC@, b), "ScalarFunctionSpec "@)) by {
        let before = text::lemma_fill_reaches(s, b, 0);
        reveal_strlit("            ");
        assert(s.subrange(0, 12) =~= "            "@);
        text::lemma_fill_run(s, b, 0, "            "@);
        reveal_strlit("ScalarFunctionSpec ");
        assert(s.subrange(12, 31) =~= "ScalarFunctionSpec "@);
        text::lemma_fill_run(s, b, 12, "ScalarFunctionSpec "@);
        let rest = text::fill_from(s, b, 31);
        let part = "ScalarFunctionSpec "@;
        assert(before + ("            "@ + (part + rest)) =~= (before + "            "@) + (part + rest));
        words::lemma_piece_between(before + "            "@, part, rest);
    }
    assert(words::has_piece(text::fill(t::SCALAR_SPEC@, b), "id: "@ + id + ","@)) by {
        let before = text::lemma_fill_reaches(s, b, 0);
        let past_0 = text::lemma_fill_passes(s, b, 0, 45);
        let past_45 = text::lemma_fill_passes(s, b, 45, 50);
        reveal_strlit("id: ");
        assert(s.subrange(50, 54) =~= "id: "@);
        text::lemma_fill_run(s, b, 50, "id: "@);
        reveal_strlit("id");
        assert(s.subrange(55, 57) =~= "id"@);
        text::lemma_fill_hole(s, b, 54, "id"@);
        reveal_strlit(",");
        assert(s.subrange(58, 59) =~= ","@);
        text::lemma_fill_run(s, b, 58, ","@);
        let rest = text::fill_from(s, b, 59);
        let part = "id: "@ + id + ","@;
        assert(("id: "@ + (id + (","@ + rest))) =~= part + rest);
        assert(before + (past_0 + (past_45 + (part + rest)))
            =~= (before + past_0 + past_45) + (part + rest));
        words::lemma_piece_between(before + past_0 + past_45, part, rest);
    }
    assert(words::has_piece(text::fill(t::SCALAR_SPEC@, b), "name: \""@ + escaped + "\".to_string(),"@)) by {
        let before = text::lemma_fill_reaches(s, b, 58);
        reveal_strlit(",\n                ");
        assert(s.subrange(58, 76) =~= ",\n                "@);
        text::lemma_fill_run(s, b, 58, ",\n                "@);
        reveal_strlit("name: \"");
        assert(s.subrange(76, 83) =~= "name: \""@);
        text::lemma_fill_run(s, b, 76, "name: \""@);
        reveal_strlit("escaped");
        assert(s.subrange(84, 91) =~= "escaped"@);
        text::lemma_fill_hole(s, b, 83, "escaped"@);
        reveal_strlit("\".to_string(),");
        assert(s.subrange(92, 106) =~= "\".to_string(),"@);
        text::lemma_fill_run(s, b, 92, "\".to_string(),"@);
        let rest = text::fill_from(s, b, 106);
        let part = "name: \""@ + escaped + "\".to_string(),"@;
        assert(("name: \""@ + (escaped + ("\".to_string(),"@ + rest))) =~= part + rest);
        assert(before + (",\n                "@ + (part + rest))
            =~= (before + ",\n                "@) + (part + rest));
        words::lemma_piece_between(before + ",\n                "@, part, rest);
    }
    assert(words::has_piece(text::fill(t::SCALAR_SPEC@, b), "num_args: -1,"@)) by {
        let before = text::lemma_fill_reaches(s, b, 92);
        reveal_strlit("\".to_string(),\n               ");
        assert(s.subrange(92, 122) =~= "\".to_string(),\n               "@);
        text::lemma_fill_run(s, b, 92, "\".to_string(),\n               "@);
        reveal_strlit(" ");
        assert(s.subrange(122, 123) =~= " "@);
        text::lemma_fill_run(s, b, 122, " "@);
        reveal_strlit("num_args: -1,");
        assert(s.subrange(123, 136) =~= "num_args: -1,"@);
        text::lemma_fill_run(s, b, 123, "num_args: -1,"@);
        let rest = text::fill_from(s, b, 136);
        let part = "num_args: -1,"@;
        assert(before + ("\".to_string(),\n               "@ + (" "@ + (part + rest)))
            =~= (before + "\".to_string(),\n               "@ + " "@) + (part + rest));
        words::lemma_piece_between(before + "\".to_string(),\n               "@ + " "@, part, rest);
    }
    assert(words::has_piece(text::fill(t::SCALAR_SPEC@, b), "func_flags: FunctionFlags::DETERMINISTIC,"@)) by {
        let before = text::lemma_fill_reaches(s, b, 92);
        let past_92 = text::lemma_fill_passes(s, b, 92, 137);
        let past_137 = text::lemma_fill_passes(s, b, 137, 153);
        reveal_strlit("func_flags: FunctionFlags::DET");
        assert(s.subrange(153, 183) =~= "func_flags: FunctionFlags::DET"@);
        text::lemma_fill_run(s, b, 153, "func_flags: FunctionFlags::DET"@);
        reveal_strlit("ERMINISTIC,");
        assert(s.subrange(183, 194) =~= "ERMINISTIC,"@);
        text::lemma_fill_run(s, b, 183, "ERMINISTIC,"@);
        let rest = text::fill_from(s, b, 194);
        let part = "func_flags: FunctionFlags::DETERMINISTIC,"@;
        reveal_strlit("func_flags: FunctionFlags::DETERMINISTIC,");
        assert(("func_flags: FunctionFlags::DET"@ + ("ERMINISTIC,"@ + rest)) =~= part + rest);
        assert(before + (past_92 + (past_137 + (part + rest)))
            =~= (before + past_92 + past_137) + (part + rest));
        words::lemma_piece_between(before + past_92 + past_137, part, rest);
    }
}

proof fn lemma_aggregate_spec(id: Seq<char>, escaped: Seq<char>)
    ensures
        words::has_piece(
            text::fill(t::AGGREGATE_SPEC@, seq![("id"@, id), ("escaped"@, escaped)]),
            "AggregateFunctionSpec "@,
        ),
        words::has_piece(
            text::fill(t::AGGREGATE_SPEC@, seq![("id"@, id), ("escaped"@, escaped)]),
            "id: "@ + id + ","@,
        ),
        words::has_piece(
            text::fill(t::AGGREGATE_SPEC@, seq![("id"@, id), ("escaped"@, escaped)]),
            "name: \""@ + escaped + "\".to_string(),"@,
        ),
        words::has_piece(
            text::fill(t::AGGREGATE_SPEC@, seq![("id"@, id), ("escaped"@, escaped)]),
            "num_args: -1,"@,
        ),
        words::has_piece(
            text::fill(t::AGGREGATE_SPEC@, seq![("id"@, id), ("escaped"@, escaped)]),
            "func_flags: FunctionFlags::empty(),"@,
        ),
        words::has_piece(
            text::fill(t::AGGREGATE_SPEC@, seq![("id"@, id), ("escaped"@, escaped)]),
            "is_window: false,"@,
        ),
{
    let s = t::AGGREGATE_SPEC@;
    reveal_strlit(r#"            AggregateFunctionSpec {{
                id: {id},
                name: "{escaped}".to_string(),
                num_args: -1,
                func_flags: FunctionFlags::empty(),
                is_window: false,
            }},
"#);
    reveal_with_fuel(text::plain_to, 31);
    reveal_with_fuel(text::passes_to, 46);
    let b = seq![("id"@, id), ("escaped"@, escaped)];
    lemma_holes_id_escaped(id, escaped);
    assert(words::has_piece(text::fill(t::AGGREGATE_SPEC@, b), "AggregateFunctionSpec "@)) by {
        let before = text::lemma_fill_reaches(s, b, 0);
        reveal_strlit("            ");
        assert(s.subrange(0, 12) =~= "            "@);
        text::lemma_fill_run(s, b, 0, "            "@);
        reveal_strlit("AggregateFunctionSpec ");
        assert(s.subrange(12, 34) =~= "AggregateFunctionSpec "@);
        text::lemma_fill_run(s, b, 12, "AggregateFunctionSpec "@);
        let rest = text::fill_from(s, b, 34);
        let part = "AggregateFunctionSpec "@;
        assert(before + ("            "@ + (part + rest)) =~= (before + "            "@) + (part + rest));
        words::lemma_piece_between(before + "            "@, part, rest);
    }
    assert(words::has_piece(text::fill(t::AGGREGATE_SPEC@, b), "id: "@ + id + ","@)) by {
        let before = text::lemma_fill_reaches(s, b, 0);
        let past_0 = text::lemma_fill_passes(s, b, 0, 45);
        let past_45 = text::lemma_fill_passes(s, b, 45, 53);
        reveal_strlit("id: ");
        assert(s.subrange(53, 57) =~= "id: "@);
        text::lemma_fill_run(s, b, 53, "id: "@);
        reveal_strlit("id");
        assert(s.subrange(58, 60) =~= "id"@);
        text::lemma_fill_hole(s, b, 57, "id"@);
        reveal_strlit(",");
        assert(s.subrange(61, 62) =~= ","@);
        text::lemma_fill_run(s, b, 61, ","@);
        let rest = text::fill_from(s, b, 62);
        let part = "id: "@ + id + ","@;
        assert(("id: "@ + (id + (","@ + rest))) =~= part + rest);
        assert(before + (past_0 + (past_45 + (part + rest)))
            =~= (before + past_0 + past_45) + (part + rest));
        words::lemma_piece_between(before + past_0 + past_45, part, rest);
    }
    assert(words::has_piece(text::fill(t::AGGREGATE_SPEC@, b), "name: \""@ + escaped + "\".to_string(),"@)) by {
        let before = text::lemma_fill_reaches(s, b, 61);
        reveal_strlit(",\n                ");
        assert(s.subrange(61, 79) =~= ",\n                "@);
        text::lemma_fill_run(s, b, 61, ",\n                "@);
        reveal_strlit("name: \"");
        assert(s.subrange(79, 86) =~= "name: \""@);
        text::lemma_fill_run(s, b, 79, "name: \""@);
        reveal_strlit("escaped");
        assert(s.subrange(87, 94) =~= "escaped"@);
        text::lemma_fill_hole(s, b, 86, "escaped"@);
        reveal_strlit("\".to_string(),");
        assert(s.subrange(95, 109) =~= "\".to_string(),"@);
        text::lemma_fill_run(s, b, 95, "\".to_string(),"@);
        let rest = text::fill_from(s, b, 109);
        let part = "name: \""@ + escaped + "\".to_string(),"@;
        assert(("name: \""@ + (escaped + ("\".to_string(),"@ + rest))) =~= part + rest);
        assert(before + (",\n                "@ + (part + rest))
            =~= (before + ",\n                "@) + (part + rest));
        words::lemma_piece_between(before + ",\n                "@, part, rest);
    }
    assert(words::has_piece(text::fill(t::AGGREGATE_SPEC@, b), "num_args: -1,"@)) by {
        let before = text::lemma_fill_reaches(s, b, 95);
        reveal_strlit("\".to_string(),\n               ");
        assert(s.subrange(95, 125) =~= "\".to_string(),\n               "@);
        text::lemma_fill_run(s, b, 95, "\".to_string(),\n               "@);
        reveal_strlit(" ");
        assert(s.subrange(125, 126) =~= " "@);
        text::lemma_fill_run(s, b, 125, " "@);
        reveal_strlit("num_args: -1,");
        assert(s.subrange(126, 139) =~= "num_args: -1,"@);
        text::lemma_fill_run(s, b, 126, "num_args: -1,"@);
        let rest = text::fill_from(s, b, 139);
        let part = "num_args: -1,"@;
        assert(before + ("\".to_string(),\n               "@ + (" "@ + (part + rest)))
            =~= (before + "\".to_string(),\n               "@ + " "@) + (part + rest));
        words::lemma_piece_between(before + "\".to_string(),\n               "@ + " "@, part, rest);
    }
    assert(words::has_piece(text::fill(t::AGGREGATE_SPEC@, b), "func_flags: FunctionFlags::empty(),"@)) by {
        let before = text::lemma_fill_reaches(s, b, 95);
        let past_95 = text::lemma_fill_passes(s, b, 95, 140);
        let past_140 = text::lemma_fill_passes(s, b, 140, 156);
        reveal_strlit("func_flags: FunctionFlags::emp");
        assert(s.subrange(156, 186) =~= "func_flags: FunctionFlags::emp"@);
        text::lemma_fill_run(s, b, 156, "func_flags: FunctionFlags::emp"@);
        reveal_strlit("ty(),");
        assert(s.subrange(186, 191) =~= "ty(),"@);
        text::lemma_fill_run(s, b, 186, "ty(),"@);
        let rest = text::fill_from(s, b, 191);
        let part = "func_flags: FunctionFlags::empty(),"@;
        reveal_strlit("func_flags: FunctionFlags::empty(),");
        assert(("func_flags: FunctionFlags::emp"@ + ("ty(),"@ + rest)) =~= part + rest);
        assert(before + (past_95 + (past_140 + (part + rest)))
            =~= (before + past_95 + past_140) + (part + rest));
        words::lemma_piece_between(before + past_95 + past_140, part, rest);
    }
    assert(words::has_piece(text::fill(t::AGGREGATE_SPEC@, b), "is_window: false,"@)) by {
        let before = text::lemma_fill_reaches(s, b, 95);
        let past_95 = text::lemma_fill_passes(s, b, 95, 140);
        let past_140 = text::lemma_fill_passes(s, b, 140, 185);
        let past_185 = text::lemma_fill_passes(s, b, 185, 208);
        reveal_strlit("is_window: false,");
        assert(s.subrange(208, 225) =~= "is_window: false,"@);
        text::lemma_fill_run(s, b, 208, "is_window: false,"@);
        let rest = text::fill_from(s, b, 225);
        let part = "is_window: false,"@;
        assert(before + (past_95 + (past_140 + (past_185 + (part + rest))))
            =~= (before + past_95 + past_140 + past_185) + (part + rest));
        words::lemma_piece_between(before + past_95 + past_140 + past_185, part, rest);
    }
}

proof fn lemma_window_spec(id: Seq<char>, escaped: Seq<char>)
    ensures
        words::has_piece(
            text::fill(t::WINDOW_SPEC@, seq![("id"@, id), ("escaped"@, escaped)]),
            "AggregateFunctionSpec "@,
        ),
        words::has_piece(
            text::fill(t::WINDOW_SPEC@, seq![("id"@, id), ("escaped"@, escaped)]),
            "id: "@ + id + ","@,
        ),
        words::has_piece(
            text::fill(t::WINDOW_SPEC@, seq![("id"@, id), ("escaped"@, escaped)]),
            "name: \""@ + escaped + "\".to_string(),"@,
        ),
        words::has_piece(
            text::fill(t::WINDOW_SPEC@, seq![("id"@, id), ("escaped"@, escaped)]),
            "num_args: -1,"@,
        ),
        words::has_piece(
            text::fill(t::WINDOW_SPEC@, seq![("id"@, id), ("escaped"@, escaped)]),
            "func_flags: FunctionFlags::empty(),"@,
        ),
        words::has_piece(
            text::fill(t::WINDOW_SPEC@, seq![("id"@, id), ("escaped"@, escaped)]),
            "is_window: true,"@,
        ),
{
    let s = t::WINDOW_SPEC@;
    reveal_strlit(r#"            AggregateFunctionSpec {{
                id: {id},
                name: "{escaped}".to_string(),
                num_args: -1,
                func_flags: FunctionFlags::empty(),
                is_window: true,
            }},
"#);
    reveal_with_fuel(text::plain_to, 31);
    reveal_with_fuel(text::passes_to, 46);
    let b = seq![("id"@, id), ("escaped"@, escaped)];
    lemma_holes_id_escaped(id, escaped);
    assert(words::has_piece(text::fill(t::WINDOW_SPEC@, b), "AggregateFunctionSpec "@)) by {
        let before = text::lemma_fill_reaches(s, b, 0);
        reveal_strlit("            ");
        assert(s.subrange(0, 12) =~= "            "@);
        text::lemma_fill_run(s, b, 0, "            "@);
        reveal_strlit("AggregateFunctionSpec ");
        assert(s.subrange(12, 34) =~= "AggregateFunctionSpec "@);
        text::lemma_fill_run(s, b, 12, "AggregateFunctionSpec "@);
        let rest = text::fill_from(s, b, 34);
        let part = "AggregateFunctionSpec "@;
        assert(before + ("            "@ + (part + rest)) =~= (before + "            "@) + (part + rest));
        words::lemma_piece_between(before + "            "@, part, rest);
    }
    assert(words::has_piece(text::fill(t::WINDOW_SPEC@, b), "id: "@ + id + ","@)) by {
        let before = text::lemma_fill_reaches(s, b, 0);
        let past_0 = text::lemma_fill_passes(s, b, 0, 45);
        let past_45 = text::lemma_fill_passes(s, b, 45, 53);
        reveal_strlit("id: ");
        assert(s.subrange(53, 57) =~= "id: "@);
        text::lemma_fill_run(s, b, 53, "id: "@);
        reveal_strlit("id");
        assert(s.subrange(58, 60) =~= "id"@);
        text::lemma_fill_hole(s, b, 57, "id"@);
        reveal_strlit(",");
        assert(s.subrange(61, 62) =~= ","@);
        text::lemma_fill_run(s, b, 61, ","@);
        let rest = text::fill_from(s, b, 62);
        let part = "id: "@ + id + ","@;
        assert(("id: "@ + (id + (","@ + rest))) =~= part + rest);
        assert(before + (past_0 + (past_45 + (part + rest)))
            =~= (before + past_0 + past_45) + (part + rest));
        words::lemma_piece_between(before + past_0 + past_45, part, rest);
    }
    assert(words::has_piece(text::fill(t::WINDOW_SPEC@, b), "name: \""@ + escaped + "\".to_string(),"@)) by {
        let before = text::lemma_fill_reaches(s, b, 61);
        reveal_strlit(",\n                ");
        assert(s.subrange(61, 79) =~= ",\n                "@);
        text::lemma_fill_run(s, b, 61, ",\n                "@);
        reveal_strlit("name: \"");
        assert(s.subrange(79, 86) =~= "name: \""@);
        text::lemma_fill_run(s, b, 79, "name: \""@);
        reveal_strlit("escaped");
        assert(s.subrange(87, 94) =~= "escaped"@);
        text::lemma_fill_hole(s, b, 86, "escaped"@);
        reveal_strlit("\".to_string(),");
        assert(s.subrange(95, 109) =~= "\".to_string(),"@);
        text::lemma_fill_run(s, b, 95, "\".to_string(),"@);
        let rest = text::fill_from(s, b, 109);
        let part = "name: \""@ + escaped + "\".to_string(),"@;
        assert(("name: \""@ + (escaped + ("\".to_string(),"@ + rest))) =~= part + rest);
        assert(before + (",\n                "@ + (part + rest))
            =~= (before + ",\n                "@) + (part + rest));
        words::lemma_piece_between(before + ",\n                "@, part, rest);
    }
    assert(words::has_piece(text::fill(t::WINDOW_SPEC@, b), "num_args: -1,"@)) by {
        let before = text::lemma_fill_reaches(s, b, 95);
        reveal_strlit("\".to_string(),\n               ");
        assert(s.subrange(95, 125) =~= "\".to_string(),\n               "@);
        text::lemma_fill_run(s, b, 95, "\".to_string(),\n               "@);
        reveal_strlit(" ");
        assert(s.subrange(125, 126) =~= " "@);
        text::lemma_fill_run(s, b, 125, " "@);
        reveal_strlit("num_args: -1,");
        assert(s.subrange(126, 139) =~= "num_args: -1,"@);
        text::lemma_fill_run(s, b, 126, "num_args: -1,"@);
        let rest = text::fill_from(s, b, 139);
        let part = "num_args: -1,"@;
        assert(before + ("\".to_string(),\n               "@ + (" "@ + (part + rest)))
            =~= (before + "\".to_string(),\n               "@ + " "@) + (part + rest));
        words::lemma_piece_between(before + "\".to_string(),\n               "@ + " "@, part, rest);
    }
    assert(words::has_piece(text::fill(t::WINDOW_SPEC@, b), "func_flags: FunctionFlags::empty(),"@)) by {
        let before = text::lemma_fill_reaches(s, b, 95);
        let past_95 = text::lemma_fill_passes(s, b, 95, 140);
        let past_140 = text::lemma_fill_passes(s, b, 140, 156);
        reveal_strlit("func_flags: FunctionFlags::emp");
        assert(s.subrange(156, 186) =~= "func_flags: FunctionFlags::emp"@);
        text::lemma_fill_run(s, b, 156, "func_flags: FunctionFlags::emp"@);
        reveal_strlit("ty(),");
        assert(s.subrange(186, 191) =~= "ty(),"@);
        text::lemma_fill_run(s, b, 186, "ty(),"@);
        let rest = text::fill_from(s, b, 191);
        let part = "func_flags: FunctionFlags::empty(),"@;
        reveal_strlit("func_flags: FunctionFlags::empty(),");
        assert(("func_flags: FunctionFlags::emp"@ + ("ty(),"@ + rest)) =~= part + rest);
        assert(before + (past_95 + (past_140 + (part + rest)))
            =~= (before + past_95 + past_140) + (part + rest));
        words::lemma_piece_between(before + past_95 + past_140, part, rest);
    }
    assert(words::has_piece(text::fill(t::WINDOW_SPEC@, b), "is_window: true,"@)) by {
        let before = text::lemma_fill_reaches(s, b, 95);
        let past_95 = text::lemma_fill_passes(s, b, 95, 140);
        let past_140 = text::lemma_fill_passes(s, b, 140, 185);
        let past_185 = text::lemma_fill_passes(s, b, 185, 208);
        reveal_strlit("is_window: true,");
        assert(s.subrange(208, 224) =~= "is_window: true,"@);
        text::lemma_fill_run(s, b, 208, "is_window: true,"@);
        let rest = text::fill_from(s, b, 224);
        let part = "is_window: true,"@;
        assert(before + (past_95 + (past_140 + (past_185 + (part + rest))))
            =~= (before + past_95 + past_140 + past_185) + (part + rest));
        words::lemma_piece_between(before + past_95 + past_140 + past_185, part, rest);
    }
}

proof fn lemma_vtab_spec(id: Seq<char>, escaped: Seq<char>)
    ensures
        words::has_piece(
            text::fill(t::VTAB_SPEC@, seq![("id"@, id), ("escaped"@, escaped)]),
            "VtabSpec "@,
        ),
        words::has_piece(
            text::fill(t::VTAB_SPEC@, seq![("id"@, id), ("escaped"@, escaped)]),
            "id: "@ + id + ","@,
        ),
        words::has_piece(
            text::fill(t::VTAB_SPEC@, seq![("id"@, id), ("escaped"@, escaped)]),
            "name: \""@ + escaped + "\".to_string(),"@,
        ),
        words::has_piece(
            text::fill(t::VTAB_SPEC@, seq![("id"@, id), ("escaped"@, escaped)]),
            "eponymous: true,"@,
        ),
        words::has_piece(
            text::fill(t::VTAB_SPEC@, seq![("id"@, id), ("escaped"@, escaped)]),
            "mutable: false,"@,
        ),
        words::has_piece(
            text::fill(t::VTAB_SPEC@, seq![("id"@, id), ("escaped"@, escaped)]),
            "batched: false,"@,
        ),
{
    let s = t::VTAB_SPEC@;
    reveal_strlit(r#"            VtabSpec {{
                id: {id},
                name: "{escaped}".to_string(),
                eponymous: true,
                mutable: false,
                batched: false,
            }},
"#);
    reveal_with_fuel(text::plain_to, 31);
    reveal_with_fuel(text::passes_to, 46);
    let b = seq![("id"@, id), ("escaped"@, escaped)];
    lemma_holes_id_escaped(id, escaped);
    assert(words::has_piece(text::fill(t::VTAB_SPEC@, b), "VtabSpec "@)) by {
        let before = text::lemma_fill_reaches(s, b, 0);
        reveal_strlit("            ");
        assert(s.subrange(0, 12) =~= "            "@);
        text::lemma_fill_run(s, b, 0, "            "@);
        reveal_strlit("VtabSpec ");
        assert(s.subrange(12, 21) =~= "VtabSpec "@);
        text::lemma_fill_run(s, b, 12, "VtabSpec "@);
        let rest = text::fill_from(s, b, 21);
        let part = "VtabSpec "@;
        assert(before + ("            "@ + (part + rest)) =~= (before + "            "@) + (part + rest));
        words::lemma_piece_between(before + "            "@, part, rest);
    }
    assert(words::has_piece(text::fill(t::VTAB_SPEC@, b), "id: "@ + id + ","@)) by {
        let before = text::lemma_fill_reaches(s, b, 0);
        reveal_strlit("            VtabSpec ");
        assert(s.subrange(0, 21) =~= "            VtabSpec "@);
        text::lemma_fill_run(s, b, 0, "            VtabSpec "@);
        assert(text::fill_from(s, b, 21) == seq!['{'] + text::fill_from(s, b, 23));
        reveal_strlit("\n                ");
        assert(s.subrange(23, 40) =~= "\n                "@);
        text::lemma_fill_run(s, b, 23, "\n                "@);
        reveal_strlit("id: ");
        assert(s.subrange(40, 44) =~= "id: "@);
        text::lemma_fill_run(s, b, 40, "id: "@);
        reveal_strlit("id");
        assert(s.subrange(45, 47) =~= "id"@);
        text::lemma_fill_hole(s, b, 44, "id"@);
        reveal_strlit(",");
        assert(s.subrange(48, 49) =~= ","@);
        text::lemma_fill_run(s, b, 48, ","@);
        let rest = text::fill_from(s, b, 49);
        let part = "id: "@ + id + ","@;
        assert(("id: "@ + (id + (","@ + rest))) =~= part + rest);
        assert(before + ("            VtabSpec "@ + (seq!['{'] + ("\n                "@ + (part + rest))))
            =~= (before + "            VtabSpec "@ + seq!['{'] + "\n                "@) + (part + rest));
        words::lemma_piece_between(
            before + "            VtabSpec "@ + seq!['{'] + "\n                "@,
            part,
            rest,
        );
    }
    assert(words::has_piece(text::fill(t::VTAB_SPEC@, b), "name: \""@ + escaped + "\".to_string(),"@)) by {
        let before = text::lemma_fill_reaches(s, b, 48);
        reveal_strlit(",\n                ");
        assert(s.subrange(48, 66) =~= ",\n                "@);
        text::lemma_fill_run(s, b, 48, ",\n                "@);
        reveal_strlit("name: \"");
        assert(s.subrange(66, 73) =~= "name: \""@);
        text::lemma_fill_run(s, b, 66, "name: \""@);
        reveal_strlit("escaped");
        assert(s.subrange(74, 81) =~= "escaped"@);
        text::lemma_fill_hole(s, b, 73, "escaped"@);
        reveal_strlit("\".to_string(),");
        assert(s.subrange(82, 96) =~= "\".to_string(),"@);
        text::lemma_fill_run(s, b, 82, "\".to_string(),"@);
        let rest = text::fill_from(s, b, 96);
        let part = "name: \""@ + escaped + "\".to_string(),"@;
        assert(("name: \""@ + (escaped + ("\".to_string(),"@ + rest))) =~= part + rest);
        assert(before + (",\n                "@ + (part + rest))
            =~= (before + ",\n                "@) + (part + rest));
        words::lemma_piece_between(before + ",\n                "@, part, rest);
    }
    assert(words::has_piece(text::fill(t::VTAB_SPEC@, b), "eponymous: true,"@)) by {
        let before = text::lemma_fill_reaches(s, b, 82);
        reveal_strlit("\".to_string(),\n               ");
        assert(s.subrange(82, 112) =~= "\".to_string(),\n               "@);
        text::lemma_fill_run(s, b, 82, "\".to_string(),\n               "@);
        reveal_strlit(" ");
        assert(s.subrange(112, 113) =~= " "@);
        text::lemma_fill_run(s, b, 112, " "@);
        reveal_strlit("eponymous: true,");
        assert(s.subrange(113, 129) =~= "eponymous: true,"@);
        text::lemma_fill_run(s, b, 113, "eponymous: true,"@);
        let rest = text::fill_from(s, b, 129);
        let part = "eponymous: true,"@;
        assert(before + ("\".to_string(),\n               "@ + (" "@ + (part + rest)))
            =~= (before + "\".to_string(),\n               "@ + " "@) + (part + rest));
        words::lemma_piece_between(before + "\".to_string(),\n               "@ + " "@, part, rest);
    }
    assert(words::has_piece(text::fill(t::VTAB_SPEC@, b), "mutable: false,"@)) by {
        let before = text::lemma_fill_reaches(s, b, 82);
        let past_82 = text::lemma_fill_passes(s, b, 82, 127);
        let past_127 = text::lemma_fill_passes(s, b, 127, 146);
        reveal_strlit("mutable: false,");
        assert(s.subrange(146, 161) =~= "mutable: false,"@);
        text::lemma_fill_run(s, b, 146, "mutable: false,"@);
        let rest = text::fill_from(s, b, 161);
        let part = "mutable: false,"@;
        assert(before + (past_82 + (past_127 + (part + rest)))
            =~= (before + past_82 + past_127) + (part + rest));
        words::lemma_piece_between(before + past_82 + past_127, part, rest);
    }
    assert(words::has_piece(text::fill(t::VTAB_SPEC@, b), "batched: false,"@)) by {
        let before = text::lemma_fill_reaches(s, b, 82);
        let past_82 = text::lemma_fill_passes(s, b, 82, 127);
        let past_127 = text::lemma_fill_passes(s, b, 127, 172);
        let past_172 = text::lemma_fill_passes(s, b, 172, 178);
        reveal_strlit("batched: false,");
        assert(s.subrange(178, 193) =~= "batched: false,"@);
        text::lemma_fill_run(s, b, 178, "batched: false,"@);
        let rest = text::fill_from(s, b, 193);
        let part = "batched: false,"@;
        assert(before + (past_82 + (past_127 + (past_172 + (part + rest))))
            =~= (before + past_82 + past_127 + past_172) + (part + rest));
        words::lemma_piece_between(before + past_82 + past_127 + past_172, part, rest);
    }
}

} // verus!
