//! What the registrations of functions say: under which name, with which arguments and as which
//! type a function is registered.

use vstd::prelude::*;
use vstd::string::*;

use crate::duckdb::handle_table::{self, Family};
use crate::duckdb::register;
use crate::duckdb::register_templates as t;
use crate::ir::{CastRewrite, ParamShape, RetShape, UdtfEntry, WindowEntry};
use crate::text;
use crate::words;

verus! {

/// An argument is registered under its number and as its type, and a column under its name and as
/// its type.
pub proof fn law_argument_and_column(number: nat, logical: Seq<char>, col_name: Seq<char>)
    ensures
        register::func_arg(number, logical)
            == "            runtime::Funcarg {\n                name: Some(\"arg"@
                + words::decimal(number) + "\".into()),\n                logical: "@ + logical
                + ",\n            },\n"@,
        register::column_def(col_name, logical)
            == "            runtime::Columndef {\n                name: \""@ + col_name
                + "\".into(),\n                logical: "@ + logical + ",\n            },\n"@,
{
    lemma_func_arg(words::decimal(number), logical);
    lemma_column_def(col_name, logical);
}

/// The arguments of a function are registered in their order: argument `k` under the number
/// `base + k` and as the type of its shape, right before the next.
pub proof fn law_arguments_in_order(params: Seq<ParamShape>, base: nat, n: nat, k: int)
    requires
        0 <= k < n <= params.len(),
    ensures
        ({
            let this = register::func_arg((base + k) as nat, register::param_logical(params[k]));
            &&& words::has_piece(register::func_args(params, base, n), this)
            &&& k + 1 < n ==> words::has_piece(
                register::func_args(params, base, n),
                this + register::func_arg(
                    (base + k + 1) as nat,
                    register::param_logical(params[k + 1]),
                ),
            )
        }),
    decreases n,
{
    let before = register::func_args(params, base, (n - 1) as nat);
    let last = register::func_arg(
        (base + n - 1) as nat,
        register::param_logical(params[n - 1]),
    );
    if k == n - 1 {
        words::lemma_piece_added(before, last);
    } else {
        law_arguments_in_order(params, base, (n - 1) as nat, k);
        words::lemma_pieces_kept(before, last);
        if k == n - 2 {
            let start = register::func_args(params, base, (n - 2) as nat);
            let this = register::func_arg((base + k) as nat, register::param_logical(params[k]));
            assert(start + this + last =~= start + (this + last));
            words::lemma_piece_added(start, this + last);
        }
    }
}

/// An aggregate and a window function take the accumulated value first, as a blob, and the extra
/// arguments behind it.
pub proof fn law_accumulated_argument_first(extras: Seq<ParamShape>)
    ensures
        register::streamed_args(extras) == register::func_arg(0, "types::Logicaltype::Blob"@)
            + register::func_args(extras, 1, extras.len()),
{
}

/// The registration of a scalar or an aggregate ties its handle to its arm, and gives its name,
/// its arguments, the type of its result and its flags; only a deterministic function is said to
/// be one.
pub proof fn law_function_registration(
    arm_idx: nat,
    sql_name: Seq<char>,
    args: Seq<char>,
    ret: RetShape,
    deterministic: bool,
)
    ensures
        ({
            let s = register::registration(
                Family::Scalar,
                t::SCALAR_REGISTRATION@,
                arm_idx,
                sql_name,
                args,
                ret,
                deterministic,
            );
            let attrs = if deterministic {
                "types::Funcflags::DETERMINISTIC | types::Funcflags::STATELESS"@
            } else {
                "types::Funcflags::STATELESS"@
            };
            &&& words::has_piece(s, ".insert(handle, "@ + words::decimal(arm_idx) + "usize);"@)
            &&& words::has_piece(s, "runtime::ScalarCallback::new(handle)"@)
            &&& words::has_piece(
                s,
                "let args: Vec<runtime::Funcarg> = vec![\n"@ + args + "        ];"@,
            )
            &&& words::has_piece(s, "attributes: "@ + attrs + ","@)
            &&& words::has_piece(
                s,
                "registry.register(\n            \""@ + words::escaped(sql_name)
                    + "\",\n            &args,\n            &"@ + register::ret_logical(ret) + ","@,
            )
        }),
        ({
            let s = register::registration(
                Family::Aggregate,
                t::AGGREGATE_REGISTRATION@,
                arm_idx,
                sql_name,
                args,
                ret,
                deterministic,
            );
            let attrs = if deterministic {
                "types::Funcflags::DETERMINISTIC | types::Funcflags::STATELESS"@
            } else {
                "types::Funcflags::STATELESS"@
            };
            &&& words::has_piece(s, ".insert(handle, "@ + words::decimal(arm_idx) + "usize);"@)
            &&& words::has_piece(s, "runtime::AggregateCallback::new(handle)"@)
            &&& words::has_piece(
                s,
                "let args: Vec<runtime::Funcarg> = vec![\n"@ + args + "        ];"@,
            )
            &&& words::has_piece(s, "attributes: "@ + attrs + ","@)
            &&& words::has_piece(
                s,
                "registry.register(\n            \""@ + words::escaped(sql_name)
                    + "\",\n            &args,\n            &"@ + register::ret_logical(ret) + ","@,
            )
        }),
{
    let d = words::decimal(arm_idx);
    let name = words::escaped(sql_name);
    let attrs = register::attributes(deterministic);
    let logical = register::ret_logical(ret);
    lemma_scalar_registration(d, name, args, attrs, logical);
    lemma_aggregate_registration(d, name, args, attrs, logical);
    let holes = seq![
        ("arm_idx"@, d),
        ("sql_name"@, name),
        ("args_block"@, args),
        ("attrs"@, attrs),
        ("ret_logical"@, logical),
    ];
    words::lemma_pieces_moved(
        t::TAKE_HANDLE@ + handle_table::lookup(Family::Scalar),
        text::fill(t::SCALAR_REGISTRATION@, holes),
    );
    words::lemma_pieces_moved(
        t::TAKE_HANDLE@ + handle_table::lookup(Family::Aggregate),
        text::fill(t::AGGREGATE_REGISTRATION@, holes),
    );
}

/// The registration of a window function ties its handle to its arm, and gives its name, its
/// arguments and the type of its result.
pub proof fn law_window_registration(e: WindowEntry, arm_idx: nat)
    ensures
        ({
            let s = register::window_registration(e, arm_idx);
            &&& words::has_piece(s, ".insert(handle, "@ + words::decimal(arm_idx) + "usize);"@)
            &&& words::has_piece(s, "runtime::AggregateCallback::new(handle)"@)
            &&& words::has_piece(
                s,
                "let args: Vec<runtime::Funcarg> = vec![\n"@
                    + register::streamed_args(e.shape.extra_args@) + "        ];"@,
            )
            &&& words::has_piece(s, "types::Funcflags::DETERMINISTIC | types::Funcflags::STATELESS"@)
            &&& words::has_piece(
                s,
                "registry.register(\n            \""@ + words::escaped(e.sql_name@)
                    + "\",\n            &args,\n            &"@
                    + register::window_logical(e.shape.returns) + ","@,
            )
        }),
{
    let d = words::decimal(arm_idx);
    let name = words::escaped(e.sql_name@);
    let args = register::streamed_args(e.shape.extra_args@);
    let logical = register::window_logical(e.shape.returns);
    lemma_window_registration(d, name, args, logical);
    words::lemma_pieces_moved(
        t::TAKE_HANDLE@ + handle_table::lookup(Family::Window),
        text::fill(
            t::WINDOW_REGISTRATION@,
            seq![
                ("arm_idx"@, d),
                ("sql_name"@, name),
                ("args_block"@, args),
                ("ret_logical"@, logical),
            ],
        ),
    );
}

/// The registration of a table function ties its handle to its arm, and gives its name, its
/// arguments and its columns.
pub proof fn law_table_registration(e: UdtfEntry, arm_idx: nat)
    ensures
        ({
            let s = register::table_registration(e, arm_idx);
            &&& words::has_piece(s, ".insert(handle, "@ + words::decimal(arm_idx) + "usize);"@)
            &&& words::has_piece(s, "runtime::TableCallback::new(handle)"@)
            &&& words::has_piece(
                s,
                "let args: Vec<runtime::Funcarg> = vec![\n"@
                    + register::func_args(e.shape.params@, 0, e.shape.params@.len())
                    + "        ];"@,
            )
            &&& words::has_piece(
                s,
                "let columns: Vec<runtime::Columndef> = vec![\n"@
                    + register::columns(e.shape.output_row) + "        ];"@,
            )
            &&& words::has_piece(
                s,
                "registry.register(\n            \""@ + words::escaped(e.sql_name@)
                    + "\",\n            &args,\n            &columns,"@,
            )
        }),
{
    let d = words::decimal(arm_idx);
    let name = words::escaped(e.sql_name@);
    let args = register::func_args(e.shape.params@, 0, e.shape.params@.len());
    let columns = register::columns(e.shape.output_row);
    lemma_table_registration(d, name, args, columns);
    words::lemma_pieces_moved(
        t::TAKE_HANDLE@ + handle_table::lookup(Family::Table),
        text::fill(
            t::TABLE_REGISTRATION@,
            seq![
                ("arm_idx"@, d),
                ("sql_name"@, name),
                ("args_block"@, args),
                ("cols_block"@, columns),
            ],
        ),
    );
}

/// A cast ties its handle to the arm of its scalar and leads to its target type: implicitly from a
/// string literal, and explicitly from a geography column or a blob.
pub proof fn law_cast_registration(arm_idx: nat, cast: CastRewrite)
    ensures
        ({
            let s = register::cast_registration(arm_idx, cast);
            &&& words::has_piece(s, ".insert(handle, "@ + words::decimal(arm_idx) + "usize);"@)
            &&& words::has_piece(s, "runtime::CastCallback::new(handle)"@)
            &&& words::has_piece(s, "to: \""@ + words::upper_text(cast.target_type@) + "\".into(),"@)
            &&& if cast.source_kind@ == "castsourcekind::stringliteral"@ {
                &&& words::has_piece(s, "from: \"VARCHAR\".into(),"@)
                &&& words::has_piece(s, "kind: catalog::CastKind::Implicit,"@)
            } else if cast.source_kind@ == "castsourcekind::geographycolumn"@ {
                &&& words::has_piece(s, "from: \"GEOGRAPHY\".into(),"@)
                &&& words::has_piece(s, "kind: catalog::CastKind::Explicit,"@)
            } else {
                &&& words::has_piece(s, "from: \"BLOB\".into(),"@)
                &&& words::has_piece(s, "kind: catalog::CastKind::Explicit,"@)
            }
        }),
{
    let holes = register::cast_holes(arm_idx, cast);
    let source = register::cast_source(cast.source_kind@);
    lemma_cast_registration(
        words::escaped(cast.source_kind@),
        words::upper_text(cast.target_type@),
        words::escaped(cast.function_name@),
        words::decimal(arm_idx),
        source.1,
        source.0,
    );
    words::lemma_pieces_moved(
        text::fill(t::CAST_TAKE_HANDLE@, holes) + handle_table::lookup(Family::Scalar),
        text::fill(t::CAST_REGISTRATION@, holes),
    );
    lemma_cast_words();
}

proof fn lemma_cast_words()
    ensures
        "from: \""@ + "VARCHAR"@ + "\".into(),"@ == "from: \"VARCHAR\".into(),"@,
        "from: \""@ + "GEOGRAPHY"@ + "\".into(),"@ == "from: \"GEOGRAPHY\".into(),"@,
        "from: \""@ + "BLOB"@ + "\".into(),"@ == "from: \"BLOB\".into(),"@,
        "kind: catalog::CastKind::"@ + "Implicit"@ + ","@ == "kind: catalog::CastKind::Implicit,"@,
        "kind: catalog::CastKind::"@ + "Explicit"@ + ","@ == "kind: catalog::CastKind::Explicit,"@,
{
    reveal_strlit("from: \"");
    reveal_strlit("VARCHAR");
    reveal_strlit("\".into(),");
    reveal_strlit("from: \"VARCHAR\".into(),");
    assert("from: \""@ + "VARCHAR"@ + "\".into(),"@ =~= "from: \"VARCHAR\".into(),"@);
    reveal_strlit("from: \"");
    reveal_strlit("GEOGRAPHY");
    reveal_strlit("\".into(),");
    reveal_strlit("from: \"GEOGRAPHY\".into(),");
    assert("from: \""@ + "GEOGRAPHY"@ + "\".into(),"@ =~= "from: \"GEOGRAPHY\".into(),"@);
    reveal_strlit("from: \"");
    reveal_strlit("BLOB");
    reveal_strlit("\".into(),");
    reveal_strlit("from: \"BLOB\".into(),");
    assert("from: \""@ + "BLOB"@ + "\".into(),"@ =~= "from: \"BLOB\".into(),"@);
    reveal_strlit("kind: catalog::CastKind::");
    reveal_strlit("Implicit");
    reveal_strlit(",");
    reveal_strlit("kind: catalog::CastKind::Implicit,");
    assert("kind: catalog::CastKind::"@ + "Implicit"@ + ","@ =~= "kind: catalog::CastKind::Implicit,"@);
    reveal_strlit("kind: catalog::CastKind::");
    reveal_strlit("Explicit");
    reveal_strlit(",");
    reveal_strlit("kind: catalog::CastKind::Explicit,");
    assert("kind: catalog::CastKind::"@ + "Explicit"@ + ","@ =~= "kind: catalog::CastKind::Explicit,"@);
}

proof fn lemma_holes_i_logical(i: Seq<char>, logical: Seq<char>)
    ensures
        ({
            let b = seq![("i"@, i), ("logical"@, logical)];
            &&& text::lookup_from(b, "i"@, 0) == i
            &&& text::lookup_from(b, "logical"@, 0) == logical
        }),
{
    reveal_strlit("i");
    reveal_strlit("logical");
    reveal_with_fuel(text::lookup_from, 3);
    assert("i"@.len() != "logical"@.len());
}

proof fn lemma_holes_col_name_logical(col_name: Seq<char>, logical: Seq<char>)
    ensures
        ({
            let b = seq![("col_name"@, col_name), ("logical"@, logical)];
            &&& text::lookup_from(b, "col_name"@, 0) == col_name
            &&& text::lookup_from(b, "logical"@, 0) == logical
        }),
{
    reveal_strlit("col_name");
    reveal_strlit("logical");
    reveal_with_fuel(text::lookup_from, 3);
    assert("col_name"@.len() != "logical"@.len());
}

proof fn lemma_holes_arm_idx_sql_name_args_block_attrs_ret_logical(
    arm_idx: Seq<char>,
    sql_name: Seq<char>,
    args_block: Seq<char>,
    attrs: Seq<char>,
    ret_logical: Seq<char>,
)
    ensures
        ({
            let b = seq![("arm_idx"@, arm_idx), ("sql_name"@, sql_name), ("args_block"@, args_block), ("attrs"@, attrs), ("ret_logical"@, ret_logical)];
            &&& text::lookup_from(b, "arm_idx"@, 0) == arm_idx
            &&& text::lookup_from(b, "sql_name"@, 0) == sql_name
            &&& text::lookup_from(b, "args_block"@, 0) == args_block
            &&& text::lookup_from(b, "attrs"@, 0) == attrs
            &&& text::lookup_from(b, "ret_logical"@, 0) == ret_logical
        }),
{
    reveal_strlit("arm_idx");
    reveal_strlit("sql_name");
    reveal_strlit("args_block");
    reveal_strlit("attrs");
    reveal_strlit("ret_logical");
    reveal_with_fuel(text::lookup_from, 6);
    assert("arm_idx"@.len() != "sql_name"@.len());
    assert("arm_idx"@.len() != "args_block"@.len());
    assert("arm_idx"@.len() != "attrs"@.len());
    assert("arm_idx"@.len() != "ret_logical"@.len());
    assert("sql_name"@.len() != "args_block"@.len());
    assert("sql_name"@.len() != "attrs"@.len());
    assert("sql_name"@.len() != "ret_logical"@.len());
    assert("args_block"@.len() != "attrs"@.len());
    assert("args_block"@.len() != "ret_logical"@.len());
    assert("attrs"@.len() != "ret_logical"@.len());
}

proof fn lemma_holes_arm_idx_sql_name_args_block_ret_logical(
    arm_idx: Seq<char>,
    sql_name: Seq<char>,
    args_block: Seq<char>,
    ret_logical: Seq<char>,
)
    ensures
        ({
            let b = seq![("arm_idx"@, arm_idx), ("sql_name"@, sql_name), ("args_block"@, args_block), ("ret_logical"@, ret_logical)];
            &&& text::lookup_from(b, "arm_idx"@, 0) == arm_idx
            &&& text::lookup_from(b, "sql_name"@, 0) == sql_name
            &&& text::lookup_from(b, "args_block"@, 0) == args_block
            &&& text::lookup_from(b, "ret_logical"@, 0) == ret_logical
        }),
{
    reveal_strlit("arm_idx");
    reveal_strlit("sql_name");
    reveal_strlit("args_block");
    reveal_strlit("ret_logical");
    reveal_with_fuel(text::lookup_from, 5);
    assert("arm_idx"@.len() != "sql_name"@.len());
    assert("arm_idx"@.len() != "args_block"@.len());
    assert("arm_idx"@.len() != "ret_logical"@.len());
    assert("sql_name"@.len() != "args_block"@.len());
    assert("sql_name"@.len() != "ret_logical"@.len());
    assert("args_block"@.len() != "ret_logical"@.len());
}

proof fn lemma_holes_arm_idx_sql_name_args_block_cols_block(
    arm_idx: Seq<char>,
    sql_name: Seq<char>,
    args_block: Seq<char>,
    cols_block: Seq<char>,
)
    ensures
        ({
            let b = seq![("arm_idx"@, arm_idx), ("sql_name"@, sql_name), ("args_block"@, args_block), ("cols_block"@, cols_block)];
            &&& text::lookup_from(b, "arm_idx"@, 0) == arm_idx
            &&& text::lookup_from(b, "sql_name"@, 0) == sql_name
            &&& text::lookup_from(b, "args_block"@, 0) == args_block
            &&& text::lookup_from(b, "cols_block"@, 0) == cols_block
        }),
{
    reveal_strlit("arm_idx");
    reveal_strlit("sql_name");
    reveal_strlit("args_block");
    reveal_strlit("cols_block");
    reveal_with_fuel(text::lookup_from, 5);
    assert("arm_idx"@.len() != "sql_name"@.len());
    assert("arm_idx"@.len() != "args_block"@.len());
    assert("arm_idx"@.len() != "cols_block"@.len());
    assert("sql_name"@.len() != "args_block"@.len());
    assert("sql_name"@.len() != "cols_block"@.len());
    assert("args_block"@[0] != "cols_block"@[0]);
}

proof fn lemma_holes_source_kind_to_type_fn_name_scalar_arm_idx_from_type_kind_variant(
    source_kind: Seq<char>,
    to_type: Seq<char>,
    fn_name: Seq<char>,
    scalar_arm_idx: Seq<char>,
    from_type: Seq<char>,
    kind_variant: Seq<char>,
)
    ensures
        ({
            let b = seq![("source_kind"@, source_kind), ("to_type"@, to_type), ("fn_name"@, fn_name), ("scalar_arm_idx"@, scalar_arm_idx), ("from_type"@, from_type), ("kind_variant"@, kind_variant)];
            &&& text::lookup_from(b, "source_kind"@, 0) == source_kind
            &&& text::lookup_from(b, "to_type"@, 0) == to_type
            &&& text::lookup_from(b, "fn_name"@, 0) == fn_name
            &&& text::lookup_from(b, "scalar_arm_idx"@, 0) == scalar_arm_idx
            &&& text::lookup_from(b, "from_type"@, 0) == from_type
            &&& text::lookup_from(b, "kind_variant"@, 0) == kind_variant
        }),
{
    reveal_strlit("source_kind");
    reveal_strlit("to_type");
    reveal_strlit("fn_name");
    reveal_strlit("scalar_arm_idx");
    reveal_strlit("from_type");
    reveal_strlit("kind_variant");
    reveal_with_fuel(text::lookup_from, 7);
    assert("source_kind"@.len() != "to_type"@.len());
    assert("source_kind"@.len() != "fn_name"@.len());
    assert("source_kind"@.len() != "scalar_arm_idx"@.len());
    assert("source_kind"@.len() != "from_type"@.len());
    assert("source_kind"@.len() != "kind_variant"@.len());
    assert("to_type"@[0] != "fn_name"@[0]);
    assert("to_type"@.len() != "scalar_arm_idx"@.len());
    assert("to_type"@.len() != "from_type"@.len());
    assert("to_type"@.len() != "kind_variant"@.len());
    assert("fn_name"@.len() != "scalar_arm_idx"@.len());
    assert("fn_name"@.len() != "from_type"@.len());
    assert("fn_name"@.len() != "kind_variant"@.len());
    assert("scalar_arm_idx"@.len() != "from_type"@.len());
    assert("scalar_arm_idx"@.len() != "kind_variant"@.len());
    assert("from_type"@.len() != "kind_variant"@.len());
}

proof fn lemma_func_arg(i: Seq<char>, logical: Seq<char>)
    ensures
        text::fill(t::FUNC_ARG@, seq![("i"@, i), ("logical"@, logical)])
            == "            runtime::Funcarg {\n                name: Some(\"arg"@ + i
                + "\".into()),\n                logical: "@ + logical + ",\n            },\n"@,
{
    let s = t::FUNC_ARG@;
    let b = seq![("i"@, i), ("logical"@, logical)];
    reveal_strlit(r#"            runtime::Funcarg {{
                name: Some("arg{i}".into()),
                logical: {logical},
            }},
"#);
    reveal_with_fuel(text::plain_to, 31);
    lemma_holes_i_logical(i, logical);
    reveal_strlit("            runtime::Funcarg ");
    assert(s.subrange(0, 29) =~= "            runtime::Funcarg "@);
    text::lemma_fill_run(s, b, 0, "            runtime::Funcarg "@);
    assert(text::fill_from(s, b, 29) == seq!['{'] + text::fill_from(s, b, 31));
    reveal_strlit("\n                name: Some(\"a");
    assert(s.subrange(31, 61) =~= "\n                name: Some(\"a"@);
    text::lemma_fill_run(s, b, 31, "\n                name: Some(\"a"@);
    reveal_strlit("rg");
    assert(s.subrange(61, 63) =~= "rg"@);
    text::lemma_fill_run(s, b, 61, "rg"@);
    reveal_strlit("i");
    assert(s.subrange(64, 65) =~= "i"@);
    text::lemma_fill_hole(s, b, 63, "i"@);
    reveal_strlit("\".into()),\n                log");
    assert(s.subrange(66, 96) =~= "\".into()),\n                log"@);
    text::lemma_fill_run(s, b, 66, "\".into()),\n                log"@);
    reveal_strlit("ical: ");
    assert(s.subrange(96, 102) =~= "ical: "@);
    text::lemma_fill_run(s, b, 96, "ical: "@);
    reveal_strlit("logical");
    assert(s.subrange(103, 110) =~= "logical"@);
    text::lemma_fill_hole(s, b, 102, "logical"@);
    reveal_strlit(",\n            ");
    assert(s.subrange(111, 125) =~= ",\n            "@);
    text::lemma_fill_run(s, b, 111, ",\n            "@);
    assert(text::fill_from(s, b, 125) == seq!['}'] + text::fill_from(s, b, 127));
    reveal_strlit(",\n");
    assert(s.subrange(127, 129) =~= ",\n"@);
    text::lemma_fill_run(s, b, 127, ",\n"@);
    reveal_strlit("            runtime::Funcarg {\n                name: Some(\"arg");
    reveal_strlit("\".into()),\n                logical: ");
    reveal_strlit(",\n            },\n");
    assert((
        "            runtime::Funcarg "@
            + (
                seq!['{']
                    + (
                        "\n                name: Some(\"a"@
                            + (
                                "rg"@
                                    + (
                                        i
                                            + (
                                                "\".into()),\n                log"@
                                                    + (
                                                        "ical: "@
                                                            + (
                                                                logical
                                                                    + (
                                                                        ",\n            "@
                                                                            + (
                                                                                seq!['}']
                                                                                    + (
                                                                                        ",\n"@
                                                                                            + text::fill_from(
                                                                                                s,
                                                                                                b,
                                                                                                129,
                                                                                            )
                                                                                    )
                                                                            )
                                                                    )
                                                            )
                                                    )
                                            )
                                    )
                            )
                    )
            )
    )
        =~= "            runtime::Funcarg {\n                name: Some(\"arg"@ + i
            + "\".into()),\n                logical: "@ + logical + ",\n            },\n"@);
}

proof fn lemma_column_def(col_name: Seq<char>, logical: Seq<char>)
    ensures
        text::fill(t::COLUMN_DEF@, seq![("col_name"@, col_name), ("logical"@, logical)])
            == "            runtime::Columndef {\n                name: \""@ + col_name
                + "\".into(),\n                logical: "@ + logical + ",\n            },\n"@,
{
    let s = t::COLUMN_DEF@;
    let b = seq![("col_name"@, col_name), ("logical"@, logical)];
    reveal_strlit(r#"            runtime::Columndef {{
                name: "{col_name}".into(),
                logical: {logical},
            }},
"#);
    reveal_with_fuel(text::plain_to, 31);
    lemma_holes_col_name_logical(col_name, logical);
    reveal_strlit("            runtime::Columndef");
    assert(s.subrange(0, 30) =~= "            runtime::Columndef"@);
    text::lemma_fill_run(s, b, 0, "            runtime::Columndef"@);
    reveal_strlit(" ");
    assert(s.subrange(30, 31) =~= " "@);
    text::lemma_fill_run(s, b, 30, " "@);
    assert(text::fill_from(s, b, 31) == seq!['{'] + text::fill_from(s, b, 33));
    reveal_strlit("\n                name: \"");
    assert(s.subrange(33, 57) =~= "\n                name: \""@);
    text::lemma_fill_run(s, b, 33, "\n                name: \""@);
    reveal_strlit("col_name");
    assert(s.subrange(58, 66) =~= "col_name"@);
    text::lemma_fill_hole(s, b, 57, "col_name"@);
    reveal_strlit("\".into(),\n                logi");
    assert(s.subrange(67, 97) =~= "\".into(),\n                logi"@);
    text::lemma_fill_run(s, b, 67, "\".into(),\n                logi"@);
    reveal_strlit("cal: ");
    assert(s.subrange(97, 102) =~= "cal: "@);
    text::lemma_fill_run(s, b, 97, "cal: "@);
    reveal_strlit("logical");
    assert(s.subrange(103, 110) =~= "logical"@);
    text::lemma_fill_hole(s, b, 102, "logical"@);
    reveal_strlit(",\n            ");
    assert(s.subrange(111, 125) =~= ",\n            "@);
    text::lemma_fill_run(s, b, 111, ",\n            "@);
    assert(text::fill_from(s, b, 125) == seq!['}'] + text::fill_from(s, b, 127));
    reveal_strlit(",\n");
    assert(s.subrange(127, 129) =~= ",\n"@);
    text::lemma_fill_run(s, b, 127, ",\n"@);
    reveal_strlit("            runtime::Columndef {\n                name: \"");
    reveal_strlit("\".into(),\n                logical: ");
    reveal_strlit(",\n            },\n");
    assert((
        "            runtime::Columndef"@
            + (
                " "@
                    + (
                        seq!['{']
                            + (
                                "\n                name: \""@
                                    + (
                                        col_name
                                            + (
                                                "\".into(),\n                logi"@
                                                    + (
                                                        "cal: "@
                                                            + (
                                                                logical
                                                                    + (
                                                                        ",\n            "@
                                                                            + (
                                                                                seq!['}']
                                                                                    + (
                                                                                        ",\n"@
                                                                                            + text::fill_from(
                                                                                                s,
                                                                                                b,
                                                                                                129,
                                                                                            )
                                                                                    )
                                                                            )
                                                                    )
                                                            )
                                                    )
                                            )
                                    )
                            )
                    )
            )
    )
        =~= "            runtime::Columndef {\n                name: \""@ + col_name
            + "\".into(),\n                logical: "@ + logical + ",\n            },\n"@);
}

proof fn lemma_scalar_registration(
    arm_idx: Seq<char>,
    sql_name: Seq<char>,
    args_block: Seq<char>,
    attrs: Seq<char>,
    ret_logical: Seq<char>,
)
    ensures
        words::has_piece(
            text::fill(
                t::SCALAR_REGISTRATION@,
                seq![("arm_idx"@, arm_idx), ("sql_name"@, sql_name), ("args_block"@, args_block), ("attrs"@, attrs), ("ret_logical"@, ret_logical)],
            ),
            ".insert(handle, "@ + arm_idx + "usize);"@,
        ),
        words::has_piece(
            text::fill(
                t::SCALAR_REGISTRATION@,
                seq![("arm_idx"@, arm_idx), ("sql_name"@, sql_name), ("args_block"@, args_block), ("attrs"@, attrs), ("ret_logical"@, ret_logical)],
            ),
            "runtime::ScalarCallback::new(handle)"@,
        ),
        words::has_piece(
            text::fill(
                t::SCALAR_REGISTRATION@,
                seq![("arm_idx"@, arm_idx), ("sql_name"@, sql_name), ("args_block"@, args_block), ("attrs"@, attrs), ("ret_logical"@, ret_logical)],
            ),
            "let args: Vec<runtime::Funcarg> = vec![\n"@ + args_block + "        ];"@,
        ),
        words::has_piece(
            text::fill(
                t::SCALAR_REGISTRATION@,
                seq![("arm_idx"@, arm_idx), ("sql_name"@, sql_name), ("args_block"@, args_block), ("attrs"@, attrs), ("ret_logical"@, ret_logical)],
            ),
            "attributes: "@ + attrs + ","@,
        ),
        words::has_piece(
            text::fill(
                t::SCALAR_REGISTRATION@,
                seq![("arm_idx"@, arm_idx), ("sql_name"@, sql_name), ("args_block"@, args_block), ("attrs"@, attrs), ("ret_logical"@, ret_logical)],
            ),
            "registry.register(\n            \""@ + sql_name
                + "\",\n            &args,\n            &"@ + ret_logical + ","@,
        ),
{
    let s = t::SCALAR_REGISTRATION@;
    reveal_strlit(r#"
            .lock()
            .expect("scalar handle mutex poisoned")
            .insert(handle, {arm_idx}usize);
        let callback = runtime::ScalarCallback::new(handle);
        let args: Vec<runtime::Funcarg> = vec![
{args_block}        ];
        let opts = runtime::Funcopts {{
            description: Some("{sql_name} (sqlink-shim-codegen)".into()),
            tags: vec!["{sql_name}".into()],
            attributes: {attrs},
        }};
        registry.register(
            "{sql_name}",
            &args,
            &{ret_logical},
            callback,
            Some(&opts),
        )?;
    }}
"#);
    reveal_with_fuel(text::plain_to, 31);
    let b = seq![("arm_idx"@, arm_idx), ("sql_name"@, sql_name), ("args_block"@, args_block), ("attrs"@, attrs), ("ret_logical"@, ret_logical)];
    lemma_holes_arm_idx_sql_name_args_block_attrs_ret_logical(
        arm_idx,
        sql_name,
        args_block,
        attrs,
        ret_logical,
    );
    assert(words::has_piece(
        text::fill(t::SCALAR_REGISTRATION@, b),
        ".insert(handle, "@ + arm_idx + "usize);"@,
    )) by {
        let before = text::lemma_fill_reaches(s, b, 0);
        reveal_strlit("\n            .lock()\n         ");
        assert(s.subrange(0, 30) =~= "\n            .lock()\n         "@);
        text::lemma_fill_run(s, b, 0, "\n            .lock()\n         "@);
        reveal_strlit("   .expect(\"scalar handle mute");
        assert(s.subrange(30, 60) =~= "   .expect(\"scalar handle mute"@);
        text::lemma_fill_run(s, b, 30, "   .expect(\"scalar handle mute"@);
        reveal_strlit("x poisoned\")\n            ");
        assert(s.subrange(60, 85) =~= "x poisoned\")\n            "@);
        text::lemma_fill_run(s, b, 60, "x poisoned\")\n            "@);
        reveal_strlit(".insert(handle, ");
        assert(s.subrange(85, 101) =~= ".insert(handle, "@);
        text::lemma_fill_run(s, b, 85, ".insert(handle, "@);
        reveal_strlit("arm_idx");
        assert(s.subrange(102, 109) =~= "arm_idx"@);
        text::lemma_fill_hole(s, b, 101, "arm_idx"@);
        reveal_strlit("usize);");
        assert(s.subrange(110, 117) =~= "usize);"@);
        text::lemma_fill_run(s, b, 110, "usize);"@);
        let rest = text::fill_from(s, b, 117);
        let part = ".insert(handle, "@ + arm_idx + "usize);"@;
        assert((".insert(handle, "@ + (arm_idx + ("usize);"@ + rest))) =~= part + rest);
        assert(before
            + (
                "\n            .lock()\n         "@
                    + (
                        "   .expect(\"scalar handle mute"@
                            + ("x poisoned\")\n            "@ + (part + rest))
                    )
            )
            =~= (
                before + "\n            .lock()\n         "@ + "   .expect(\"scalar handle mute"@
                    + "x poisoned\")\n            "@
            ) + (part + rest));
        words::lemma_piece_between(
            before + "\n            .lock()\n         "@ + "   .expect(\"scalar handle mute"@
                + "x poisoned\")\n            "@,
            part,
            rest,
        );
    }
    assert(words::has_piece(
        text::fill(t::SCALAR_REGISTRATION@, b),
        "runtime::ScalarCallback::new(handle)"@,
    )) by {
        let before = text::lemma_fill_reaches(s, b, 110);
        reveal_strlit("usize);\n        let callback =");
        assert(s.subrange(110, 140) =~= "usize);\n        let callback ="@);
        text::lemma_fill_run(s, b, 110, "usize);\n        let callback ="@);
        reveal_strlit(" ");
        assert(s.subrange(140, 141) =~= " "@);
        text::lemma_fill_run(s, b, 140, " "@);
        reveal_strlit("runtime::ScalarCallback::new(h");
        assert(s.subrange(141, 171) =~= "runtime::ScalarCallback::new(h"@);
        text::lemma_fill_run(s, b, 141, "runtime::ScalarCallback::new(h"@);
        reveal_strlit("andle)");
        assert(s.subrange(171, 177) =~= "andle)"@);
        text::lemma_fill_run(s, b, 171, "andle)"@);
        let rest = text::fill_from(s, b, 177);
        let part = "runtime::ScalarCallback::new(handle)"@;
        reveal_strlit("runtime::ScalarCallback::new(handle)");
        assert(("runtime::ScalarCallback::new(h"@ + ("andle)"@ + rest)) =~= part + rest);
        assert(before + ("usize);\n        let callback ="@ + (" "@ + (part + rest)))
            =~= (before + "usize);\n        let callback ="@ + " "@) + (part + rest));
        words::lemma_piece_between(before + "usize);\n        let callback ="@ + " "@, part, rest);
    }
    assert(words::has_piece(
        text::fill(t::SCALAR_REGISTRATION@, b),
        "let args: Vec<runtime::Funcarg> = vec![\n"@ + args_block + "        ];"@,
    )) by {
        let before = text::lemma_fill_reaches(s, b, 110);
        reveal_strlit("usize);\n        let callback =");
        assert(s.subrange(110, 140) =~= "usize);\n        let callback ="@);
        text::lemma_fill_run(s, b, 110, "usize);\n        let callback ="@);
        reveal_strlit(" runtime::ScalarCallback::new(");
        assert(s.subrange(140, 170) =~= " runtime::ScalarCallback::new("@);
        text::lemma_fill_run(s, b, 140, " runtime::ScalarCallback::new("@);
        reveal_strlit("handle);\n        ");
        assert(s.subrange(170, 187) =~= "handle);\n        "@);
        text::lemma_fill_run(s, b, 170, "handle);\n        "@);
        reveal_strlit("let args: Vec<runtime::Funcarg");
        assert(s.subrange(187, 217) =~= "let args: Vec<runtime::Funcarg"@);
        text::lemma_fill_run(s, b, 187, "let args: Vec<runtime::Funcarg"@);
        reveal_strlit("> = vec![\n");
        assert(s.subrange(217, 227) =~= "> = vec![\n"@);
        text::lemma_fill_run(s, b, 217, "> = vec![\n"@);
        reveal_strlit("args_block");
        assert(s.subrange(228, 238) =~= "args_block"@);
        text::lemma_fill_hole(s, b, 227, "args_block"@);
        reveal_strlit("        ];");
        assert(s.subrange(239, 249) =~= "        ];"@);
        text::lemma_fill_run(s, b, 239, "        ];"@);
        let rest = text::fill_from(s, b, 249);
        let part = "let args: Vec<runtime::Funcarg> = vec![\n"@ + args_block + "        ];"@;
        reveal_strlit("let args: Vec<runtime::Funcarg> = vec![\n");
        assert((
            "let args: Vec<runtime::Funcarg"@
                + ("> = vec![\n"@ + (args_block + ("        ];"@ + rest)))
        )
            =~= part + rest);
        assert(before
            + (
                "usize);\n        let callback ="@
                    + (" runtime::ScalarCallback::new("@ + ("handle);\n        "@ + (part + rest)))
            )
            =~= (
                before + "usize);\n        let callback ="@ + " runtime::ScalarCallback::new("@
                    + "handle);\n        "@
            ) + (part + rest));
        words::lemma_piece_between(
            before + "usize);\n        let callback ="@ + " runtime::ScalarCallback::new("@
                + "handle);\n        "@,
            part,
            rest,
        );
    }
    assert(words::has_piece(text::fill(t::SCALAR_REGISTRATION@, b), "attributes: "@ + attrs + ","@)) by {
        let before = text::lemma_fill_reaches(s, b, 398);
        reveal_strlit("\".into()],\n            ");
        assert(s.subrange(398, 421) =~= "\".into()],\n            "@);
        text::lemma_fill_run(s, b, 398, "\".into()],\n            "@);
        reveal_strlit("attributes: ");
        assert(s.subrange(421, 433) =~= "attributes: "@);
        text::lemma_fill_run(s, b, 421, "attributes: "@);
        reveal_strlit("attrs");
        assert(s.subrange(434, 439) =~= "attrs"@);
        text::lemma_fill_hole(s, b, 433, "attrs"@);
        reveal_strlit(",");
        assert(s.subrange(440, 441) =~= ","@);
        text::lemma_fill_run(s, b, 440, ","@);
        let rest = text::fill_from(s, b, 441);
        let part = "attributes: "@ + attrs + ","@;
        assert(("attributes: "@ + (attrs + (","@ + rest))) =~= part + rest);
        assert(before + ("\".into()],\n            "@ + (part + rest))
            =~= (before + "\".into()],\n            "@) + (part + rest));
        words::lemma_piece_between(before + "\".into()],\n            "@, part, rest);
    }
    assert(words::has_piece(
        text::fill(t::SCALAR_REGISTRATION@, b),
        "registry.register(\n            \""@ + sql_name
            + "\",\n            &args,\n            &"@ + ret_logical + ","@,
    )) by {
        let before = text::lemma_fill_reaches(s, b, 452);
        reveal_strlit(";\n        ");
        assert(s.subrange(452, 462) =~= ";\n        "@);
        text::lemma_fill_run(s, b, 452, ";\n        "@);
        reveal_strlit("registry.register(\n           ");
        assert(s.subrange(462, 492) =~= "registry.register(\n           "@);
        text::lemma_fill_run(s, b, 462, "registry.register(\n           "@);
        reveal_strlit(" \"");
        assert(s.subrange(492, 494) =~= " \""@);
        text::lemma_fill_run(s, b, 492, " \""@);
        reveal_strlit("sql_name");
        assert(s.subrange(495, 503) =~= "sql_name"@);
        text::lemma_fill_hole(s, b, 494, "sql_name"@);
        reveal_strlit("\",\n            &args,\n        ");
        assert(s.subrange(504, 534) =~= "\",\n            &args,\n        "@);
        text::lemma_fill_run(s, b, 504, "\",\n            &args,\n        "@);
        reveal_strlit("    &");
        assert(s.subrange(534, 539) =~= "    &"@);
        text::lemma_fill_run(s, b, 534, "    &"@);
        reveal_strlit("ret_logical");
        assert(s.subrange(540, 551) =~= "ret_logical"@);
        text::lemma_fill_hole(s, b, 539, "ret_logical"@);
        reveal_strlit(",");
        assert(s.subrange(552, 553) =~= ","@);
        text::lemma_fill_run(s, b, 552, ","@);
        let rest = text::fill_from(s, b, 553);
        let part = "registry.register(\n            \""@ + sql_name
            + "\",\n            &args,\n            &"@ + ret_logical + ","@;
        reveal_strlit("registry.register(\n            \"");
        reveal_strlit("\",\n            &args,\n            &");
        assert((
            "registry.register(\n           "@
                + (
                    " \""@
                        + (
                            sql_name
                                + (
                                    "\",\n            &args,\n        "@
                                        + ("    &"@ + (ret_logical + (","@ + rest)))
                                )
                        )
                )
        )
            =~= part + rest);
        assert(before + (";\n        "@ + (part + rest)) =~= (before + ";\n        "@) + (part + rest));
        words::lemma_piece_between(before + ";\n        "@, part, rest);
    }
}

proof fn lemma_aggregate_registration(
    arm_idx: Seq<char>,
    sql_name: Seq<char>,
    args_block: Seq<char>,
    attrs: Seq<char>,
    ret_logical: Seq<char>,
)
    ensures
        words::has_piece(
            text::fill(
                t::AGGREGATE_REGISTRATION@,
                seq![("arm_idx"@, arm_idx), ("sql_name"@, sql_name), ("args_block"@, args_block), ("attrs"@, attrs), ("ret_logical"@, ret_logical)],
            ),
            ".insert(handle, "@ + arm_idx + "usize);"@,
        ),
        words::has_piece(
            text::fill(
                t::AGGREGATE_REGISTRATION@,
                seq![("arm_idx"@, arm_idx), ("sql_name"@, sql_name), ("args_block"@, args_block), ("attrs"@, attrs), ("ret_logical"@, ret_logical)],
            ),
            "runtime::AggregateCallback::new(handle)"@,
        ),
        words::has_piece(
            text::fill(
                t::AGGREGATE_REGISTRATION@,
                seq![("arm_idx"@, arm_idx), ("sql_name"@, sql_name), ("args_block"@, args_block), ("attrs"@, attrs), ("ret_logical"@, ret_logical)],
            ),
            "let args: Vec<runtime::Funcarg> = vec![\n"@ + args_block + "        ];"@,
        ),
        words::has_piece(
            text::fill(
                t::AGGREGATE_REGISTRATION@,
                seq![("arm_idx"@, arm_idx), ("sql_name"@, sql_name), ("args_block"@, args_block), ("attrs"@, attrs), ("ret_logical"@, ret_logical)],
            ),
            "attributes: "@ + attrs + ","@,
        ),
        words::has_piece(
            text::fill(
                t::AGGREGATE_REGISTRATION@,
                seq![("arm_idx"@, arm_idx), ("sql_name"@, sql_name), ("args_block"@, args_block), ("attrs"@, attrs), ("ret_logical"@, ret_logical)],
            ),
            "registry.register(\n            \""@ + sql_name
                + "\",\n            &args,\n            &"@ + ret_logical + ","@,
        ),
{
    let s = t::AGGREGATE_REGISTRATION@;
    reveal_strlit(r#"
            .lock()
            .expect("aggregate handle mutex poisoned")
            .insert(handle, {arm_idx}usize);
        let callback = runtime::AggregateCallback::new(handle);
        let args: Vec<runtime::Funcarg> = vec![
{args_block}        ];
        let opts = runtime::Funcopts {{
            description: Some("{sql_name} (sqlink-shim-codegen)".into()),
            tags: vec!["{sql_name}".into()],
            attributes: {attrs},
        }};
        registry.register(
            "{sql_name}",
            &args,
            &{ret_logical},
            callback,
            Some(&opts),
        )?;
    }}
"#);
    reveal_with_fuel(text::plain_to, 31);
    let b = seq![("arm_idx"@, arm_idx), ("sql_name"@, sql_name), ("args_block"@, args_block), ("attrs"@, attrs), ("ret_logical"@, ret_logical)];
    lemma_holes_arm_idx_sql_name_args_block_attrs_ret_logical(
        arm_idx,
        sql_name,
        args_block,
        attrs,
        ret_logical,
    );
    assert(words::has_piece(
        text::fill(t::AGGREGATE_REGISTRATION@, b),
        ".insert(handle, "@ + arm_idx + "usize);"@,
    )) by {
        let before = text::lemma_fill_reaches(s, b, 0);
        reveal_strlit("\n            .lock()\n         ");
        assert(s.subrange(0, 30) =~= "\n            .lock()\n         "@);
        text::lemma_fill_run(s, b, 0, "\n            .lock()\n         "@);
        reveal_strlit("   .expect(\"aggregate handle m");
        assert(s.subrange(30, 60) =~= "   .expect(\"aggregate handle m"@);
        text::lemma_fill_run(s, b, 30, "   .expect(\"aggregate handle m"@);
        reveal_strlit("utex poisoned\")\n            ");
        assert(s.subrange(60, 88) =~= "utex poisoned\")\n            "@);
        text::lemma_fill_run(s, b, 60, "utex poisoned\")\n            "@);
        reveal_strlit(".insert(handle, ");
        assert(s.subrange(88, 104) =~= ".insert(handle, "@);
        text::lemma_fill_run(s, b, 88, ".insert(handle, "@);
        reveal_strlit("arm_idx");
        assert(s.subrange(105, 112) =~= "arm_idx"@);
        text::lemma_fill_hole(s, b, 104, "arm_idx"@);
        reveal_strlit("usize);");
        assert(s.subrange(113, 120) =~= "usize);"@);
        text::lemma_fill_run(s, b, 113, "usize);"@);
        let rest = text::fill_from(s, b, 120);
        let part = ".insert(handle, "@ + arm_idx + "usize);"@;
        assert((".insert(handle, "@ + (arm_idx + ("usize);"@ + rest))) =~= part + rest);
        assert(before
            + (
                "\n            .lock()\n         "@
                    + (
                        "   .expect(\"aggregate handle m"@
                            + ("utex poisoned\")\n            "@ + (part + rest))
                    )
            )
            =~= (
                before + "\n            .lock()\n         "@ + "   .expect(\"aggregate handle m"@
                    + "utex poisoned\")\n            "@
            ) + (part + rest));
        words::lemma_piece_between(
            before + "\n            .lock()\n         "@ + "   .expect(\"aggregate handle m"@
                + "utex poisoned\")\n            "@,
            part,
            rest,
        );
    }
    assert(words::has_piece(
        text::fill(t::AGGREGATE_REGISTRATION@, b),
        "runtime::AggregateCallback::new(handle)"@,
    )) by {
        let before = text::lemma_fill_reaches(s, b, 113);
        reveal_strlit("usize);\n        let callback =");
        assert(s.subrange(113, 143) =~= "usize);\n        let callback ="@);
        text::lemma_fill_run(s, b, 113, "usize);\n        let callback ="@);
        reveal_strlit(" ");
        assert(s.subrange(143, 144) =~= " "@);
        text::lemma_fill_run(s, b, 143, " "@);
        reveal_strlit("runtime::AggregateCallback::ne");
        assert(s.subrange(144, 174) =~= "runtime::AggregateCallback::ne"@);
        text::lemma_fill_run(s, b, 144, "runtime::AggregateCallback::ne"@);
        reveal_strlit("w(handle)");
        assert(s.subrange(174, 183) =~= "w(handle)"@);
        text::lemma_fill_run(s, b, 174, "w(handle)"@);
        let rest = text::fill_from(s, b, 183);
        let part = "runtime::AggregateCallback::new(handle)"@;
        reveal_strlit("runtime::AggregateCallback::new(handle)");
        assert(("runtime::AggregateCallback::ne"@ + ("w(handle)"@ + rest)) =~= part + rest);
        assert(before + ("usize);\n        let callback ="@ + (" "@ + (part + rest)))
            =~= (before + "usize);\n        let callback ="@ + " "@) + (part + rest));
        words::lemma_piece_between(before + "usize);\n        let callback ="@ + " "@, part, rest);
    }
    assert(words::has_piece(
        text::fill(t::AGGREGATE_REGISTRATION@, b),
        "let args: Vec<runtime::Funcarg> = vec![\n"@ + args_block + "        ];"@,
    )) by {
        let before = text::lemma_fill_reaches(s, b, 113);
        reveal_strlit("usize);\n        let callback =");
        assert(s.subrange(113, 143) =~= "usize);\n        let callback ="@);
        text::lemma_fill_run(s, b, 113, "usize);\n        let callback ="@);
        reveal_strlit(" runtime::AggregateCallback::n");
        assert(s.subrange(143, 173) =~= " runtime::AggregateCallback::n"@);
        text::lemma_fill_run(s, b, 143, " runtime::AggregateCallback::n"@);
        reveal_strlit("ew(handle);\n        ");
        assert(s.subrange(173, 193) =~= "ew(handle);\n        "@);
        text::lemma_fill_run(s, b, 173, "ew(handle);\n        "@);
        reveal_strlit("let args: Vec<runtime::Funcarg");
        assert(s.subrange(193, 223) =~= "let args: Vec<runtime::Funcarg"@);
        text::lemma_fill_run(s, b, 193, "let args: Vec<runtime::Funcarg"@);
        reveal_strlit("> = vec![\n");
        assert(s.subrange(223, 233) =~= "> = vec![\n"@);
        text::lemma_fill_run(s, b, 223, "> = vec![\n"@);
        reveal_strlit("args_block");
        assert(s.subrange(234, 244) =~= "args_block"@);
        text::lemma_fill_hole(s, b, 233, "args_block"@);
        reveal_strlit("        ];");
        assert(s.subrange(245, 255) =~= "        ];"@);
        text::lemma_fill_run(s, b, 245, "        ];"@);
        let rest = text::fill_from(s, b, 255);
        let part = "let args: Vec<runtime::Funcarg> = vec![\n"@ + args_block + "        ];"@;
        reveal_strlit("let args: Vec<runtime::Funcarg> = vec![\n");
        assert((
            "let args: Vec<runtime::Funcarg"@
                + ("> = vec![\n"@ + (args_block + ("        ];"@ + rest)))
        )
            =~= part + rest);
        assert(before
            + (
                "usize);\n        let callback ="@
                    + (
                        " runtime::AggregateCallback::n"@
                            + ("ew(handle);\n        "@ + (part + rest))
                    )
            )
            =~= (
                before + "usize);\n        let callback ="@ + " runtime::AggregateCallback::n"@
                    + "ew(handle);\n        "@
            ) + (part + rest));
        words::lemma_piece_between(
            before + "usize);\n        let callback ="@ + " runtime::AggregateCallback::n"@
                + "ew(handle);\n        "@,
            part,
            rest,
        );
    }
    assert(words::has_piece(text::fill(t::AGGREGATE_REGISTRATION@, b), "attributes: "@ + attrs + ","@)) by {
        let before = text::lemma_fill_reaches(s, b, 404);
        reveal_strlit("\".into()],\n            ");
        assert(s.subrange(404, 427) =~= "\".into()],\n            "@);
        text::lemma_fill_run(s, b, 404, "\".into()],\n            "@);
        reveal_strlit("attributes: ");
        assert(s.subrange(427, 439) =~= "attributes: "@);
        text::lemma_fill_run(s, b, 427, "attributes: "@);
        reveal_strlit("attrs");
        assert(s.subrange(440, 445) =~= "attrs"@);
        text::lemma_fill_hole(s, b, 439, "attrs"@);
        reveal_strlit(",");
        assert(s.subrange(446, 447) =~= ","@);
        text::lemma_fill_run(s, b, 446, ","@);
        let rest = text::fill_from(s, b, 447);
        let part = "attributes: "@ + attrs + ","@;
        assert(("attributes: "@ + (attrs + (","@ + rest))) =~= part + rest);
        assert(before + ("\".into()],\n            "@ + (part + rest))
            =~= (before + "\".into()],\n            "@) + (part + rest));
        words::lemma_piece_between(before + "\".into()],\n            "@, part, rest);
    }
    assert(words::has_piece(
        text::fill(t::AGGREGATE_REGISTRATION@, b),
        "registry.register(\n            \""@ + sql_name
            + "\",\n            &args,\n            &"@ + ret_logical + ","@,
    )) by {
        let before = text::lemma_fill_reaches(s, b, 458);
        reveal_strlit(";\n        ");
        assert(s.subrange(458, 468) =~= ";\n        "@);
        text::lemma_fill_run(s, b, 458, ";\n        "@);
        reveal_strlit("registry.register(\n           ");
        assert(s.subrange(468, 498) =~= "registry.register(\n           "@);
        text::lemma_fill_run(s, b, 468, "registry.register(\n           "@);
        reveal_strlit(" \"");
        assert(s.subrange(498, 500) =~= " \""@);
        text::lemma_fill_run(s, b, 498, " \""@);
        reveal_strlit("sql_name");
        assert(s.subrange(501, 509) =~= "sql_name"@);
        text::lemma_fill_hole(s, b, 500, "sql_name"@);
        reveal_strlit("\",\n            &args,\n        ");
        assert(s.subrange(510, 540) =~= "\",\n            &args,\n        "@);
        text::lemma_fill_run(s, b, 510, "\",\n            &args,\n        "@);
        reveal_strlit("    &");
        assert(s.subrange(540, 545) =~= "    &"@);
        text::lemma_fill_run(s, b, 540, "    &"@);
        reveal_strlit("ret_logical");
        assert(s.subrange(546, 557) =~= "ret_logical"@);
        text::lemma_fill_hole(s, b, 545, "ret_logical"@);
        reveal_strlit(",");
        assert(s.subrange(558, 559) =~= ","@);
        text::lemma_fill_run(s, b, 558, ","@);
        let rest = text::fill_from(s, b, 559);
        let part = "registry.register(\n            \""@ + sql_name
            + "\",\n            &args,\n            &"@ + ret_logical + ","@;
        reveal_strlit("registry.register(\n            \"");
        reveal_strlit("\",\n            &args,\n            &");
        assert((
            "registry.register(\n           "@
                + (
                    " \""@
                        + (
                            sql_name
                                + (
                                    "\",\n            &args,\n        "@
                                        + ("    &"@ + (ret_logical + (","@ + rest)))
                                )
                        )
                )
        )
            =~= part + rest);
        assert(before + (";\n        "@ + (part + rest)) =~= (before + ";\n        "@) + (part + rest));
        words::lemma_piece_between(before + ";\n        "@, part, rest);
    }
}

proof fn lemma_window_registration(
    arm_idx: Seq<char>,
    sql_name: Seq<char>,
    args_block: Seq<char>,
    ret_logical: Seq<char>,
)
    ensures
        words::has_piece(
            text::fill(
                t::WINDOW_REGISTRATION@,
                seq![("arm_idx"@, arm_idx), ("sql_name"@, sql_name), ("args_block"@, args_block), ("ret_logical"@, ret_logical)],
            ),
            ".insert(handle, "@ + arm_idx + "usize);"@,
        ),
        words::has_piece(
            text::fill(
                t::WINDOW_REGISTRATION@,
                seq![("arm_idx"@, arm_idx), ("sql_name"@, sql_name), ("args_block"@, args_block), ("ret_logical"@, ret_logical)],
            ),
            "runtime::AggregateCallback::new(handle)"@,
        ),
        words::has_piece(
            text::fill(
                t::WINDOW_REGISTRATION@,
                seq![("arm_idx"@, arm_idx), ("sql_name"@, sql_name), ("args_block"@, args_block), ("ret_logical"@, ret_logical)],
            ),
            "let args: Vec<runtime::Funcarg> = vec![\n"@ + args_block + "        ];"@,
        ),
        words::has_piece(
            text::fill(
                t::WINDOW_REGISTRATION@,
                seq![("arm_idx"@, arm_idx), ("sql_name"@, sql_name), ("args_block"@, args_block), ("ret_logical"@, ret_logical)],
            ),
            "types::Funcflags::DETERMINISTIC | types::Funcflags::STATELESS"@,
        ),
        words::has_piece(
            text::fill(
                t::WINDOW_REGISTRATION@,
                seq![("arm_idx"@, arm_idx), ("sql_name"@, sql_name), ("args_block"@, args_block), ("ret_logical"@, ret_logical)],
            ),
            "registry.register(\n            \""@ + sql_name
                + "\",\n            &args,\n            &"@ + ret_logical + ","@,
        ),
{
    let s = t::WINDOW_REGISTRATION@;
    reveal_strlit(r#"
            .lock()
            .expect("window handle mutex poisoned")
            .insert(handle, {arm_idx}usize);
        let callback = runtime::AggregateCallback::new(handle);
        let args: Vec<runtime::Funcarg> = vec![
{args_block}        ];
        let opts = runtime::Funcopts {{
            description: Some("{sql_name} (sqlink-shim-codegen window)".into()),
            tags: vec!["{sql_name}".into(), "window".into()],
            attributes: types::Funcflags::DETERMINISTIC | types::Funcflags::STATELESS,
        }};
        registry.register(
            "{sql_name}",
            &args,
            &{ret_logical},
            callback,
            Some(&opts),
        )?;
    }}
"#);
    reveal_with_fuel(text::plain_to, 31);
    let b = seq![("arm_idx"@, arm_idx), ("sql_name"@, sql_name), ("args_block"@, args_block), ("ret_logical"@, ret_logical)];
    lemma_holes_arm_idx_sql_name_args_block_ret_logical(arm_idx, sql_name, args_block, ret_logical);
    assert(words::has_piece(
        text::fill(t::WINDOW_REGISTRATION@, b),
        ".insert(handle, "@ + arm_idx + "usize);"@,
    )) by {
        let before = text::lemma_fill_reaches(s, b, 0);
        reveal_strlit("\n            .lock()\n         ");
        assert(s.subrange(0, 30) =~= "\n            .lock()\n         "@);
        text::lemma_fill_run(s, b, 0, "\n            .lock()\n         "@);
        reveal_strlit("   .expect(\"window handle mute");
        assert(s.subrange(30, 60) =~= "   .expect(\"window handle mute"@);
        text::lemma_fill_run(s, b, 30, "   .expect(\"window handle mute"@);
        reveal_strlit("x poisoned\")\n            ");
        assert(s.subrange(60, 85) =~= "x poisoned\")\n            "@);
        text::lemma_fill_run(s, b, 60, "x poisoned\")\n            "@);
        reveal_strlit(".insert(handle, ");
        assert(s.subrange(85, 101) =~= ".insert(handle, "@);
        text::lemma_fill_run(s, b, 85, ".insert(handle, "@);
        reveal_strlit("arm_idx");
        assert(s.subrange(102, 109) =~= "arm_idx"@);
        text::lemma_fill_hole(s, b, 101, "arm_idx"@);
        reveal_strlit("usize);");
        assert(s.subrange(110, 117) =~= "usize);"@);
        text::lemma_fill_run(s, b, 110, "usize);"@);
        let rest = text::fill_from(s, b, 117);
        let part = ".insert(handle, "@ + arm_idx + "usize);"@;
        assert((".insert(handle, "@ + (arm_idx + ("usize);"@ + rest))) =~= part + rest);
        assert(before
            + (
                "\n            .lock()\n         "@
                    + (
                        "   .expect(\"window handle mute"@
                            + ("x poisoned\")\n            "@ + (part + rest))
                    )
            )
            =~= (
                before + "\n            .lock()\n         "@ + "   .expect(\"window handle mute"@
                    + "x poisoned\")\n            "@
            ) + (part + rest));
        words::lemma_piece_between(
            before + "\n            .lock()\n         "@ + "   .expect(\"window handle mute"@
                + "x poisoned\")\n            "@,
            part,
            rest,
        );
    }
    assert(words::has_piece(
        text::fill(t::WINDOW_REGISTRATION@, b),
        "runtime::AggregateCallback::new(handle)"@,
    )) by {
        let before = text::lemma_fill_reaches(s, b, 110);
        reveal_strlit("usize);\n        let callback =");
        assert(s.subrange(110, 140) =~= "usize);\n        let callback ="@);
        text::lemma_fill_run(s, b, 110, "usize);\n        let callback ="@);
        reveal_strlit(" ");
        assert(s.subrange(140, 141) =~= " "@);
        text::lemma_fill_run(s, b, 140, " "@);
        reveal_strlit("runtime::AggregateCallback::ne");
        assert(s.subrange(141, 171) =~= "runtime::AggregateCallback::ne"@);
        text::lemma_fill_run(s, b, 141, "runtime::AggregateCallback::ne"@);
        reveal_strlit("w(handle)");
        assert(s.subrange(171, 180) =~= "w(handle)"@);
        text::lemma_fill_run(s, b, 171, "w(handle)"@);
        let rest = text::fill_from(s, b, 180);
        let part = "runtime::AggregateCallback::new(handle)"@;
        reveal_strlit("runtime::AggregateCallback::new(handle)");
        assert(("runtime::AggregateCallback::ne"@ + ("w(handle)"@ + rest)) =~= part + rest);
        assert(before + ("usize);\n        let callback ="@ + (" "@ + (part + rest)))
            =~= (before + "usize);\n        let callback ="@ + " "@) + (part + rest));
        words::lemma_piece_between(before + "usize);\n        let callback ="@ + " "@, part, rest);
    }
    assert(words::has_piece(
        text::fill(t::WINDOW_REGISTRATION@, b),
        "let args: Vec<runtime::Funcarg> = vec![\n"@ + args_block + "        ];"@,
    )) by {
        let before = text::lemma_fill_reaches(s, b, 110);
        reveal_strlit("usize);\n        let callback =");
        assert(s.subrange(110, 140) =~= "usize);\n        let callback ="@);
        text::lemma_fill_run(s, b, 110, "usize);\n        let callback ="@);
        reveal_strlit(" runtime::AggregateCallback::n");
        assert(s.subrange(140, 170) =~= " runtime::AggregateCallback::n"@);
        text::lemma_fill_run(s, b, 140, " runtime::AggregateCallback::n"@);
        reveal_strlit("ew(handle);\n        ");
        assert(s.subrange(170, 190) =~= "ew(handle);\n        "@);
        text::lemma_fill_run(s, b, 170, "ew(handle);\n        "@);
        reveal_strlit("let args: Vec<runtime::Funcarg");
        assert(s.subrange(190, 220) =~= "let args: Vec<runtime::Funcarg"@);
        text::lemma_fill_run(s, b, 190, "let args: Vec<runtime::Funcarg"@);
        reveal_strlit("> = vec![\n");
        assert(s.subrange(220, 230) =~= "> = vec![\n"@);
        text::lemma_fill_run(s, b, 220, "> = vec![\n"@);
        reveal_strlit("args_block");
        assert(s.subrange(231, 241) =~= "args_block"@);
        text::lemma_fill_hole(s, b, 230, "args_block"@);
        reveal_strlit("        ];");
        assert(s.subrange(242, 252) =~= "        ];"@);
        text::lemma_fill_run(s, b, 242, "        ];"@);
        let rest = text::fill_from(s, b, 252);
        let part = "let args: Vec<runtime::Funcarg> = vec![\n"@ + args_block + "        ];"@;
        reveal_strlit("let args: Vec<runtime::Funcarg> = vec![\n");
        assert((
            "let args: Vec<runtime::Funcarg"@
                + ("> = vec![\n"@ + (args_block + ("        ];"@ + rest)))
        )
            =~= part + rest);
        assert(before
            + (
                "usize);\n        let callback ="@
                    + (
                        " runtime::AggregateCallback::n"@
                            + ("ew(handle);\n        "@ + (part + rest))
                    )
            )
            =~= (
                before + "usize);\n        let callback ="@ + " runtime::AggregateCallback::n"@
                    + "ew(handle);\n        "@
            ) + (part + rest));
        words::lemma_piece_between(
            before + "usize);\n        let callback ="@ + " runtime::AggregateCallback::n"@
                + "ew(handle);\n        "@,
            part,
            rest,
        );
    }
    assert(words::has_piece(
        text::fill(t::WINDOW_REGISTRATION@, b),
        "types::Funcflags::DETERMINISTIC | types::Funcflags::STATELESS"@,
    )) by {
        let before = text::lemma_fill_reaches(s, b, 408);
        reveal_strlit("\".into(), \"window\".into()],\n  ");
        assert(s.subrange(408, 438) =~= "\".into(), \"window\".into()],\n  "@);
        text::lemma_fill_run(s, b, 408, "\".into(), \"window\".into()],\n  "@);
        reveal_strlit("          attributes: ");
        assert(s.subrange(438, 460) =~= "          attributes: "@);
        text::lemma_fill_run(s, b, 438, "          attributes: "@);
        reveal_strlit("types::Funcflags::DETERMINISTI");
        assert(s.subrange(460, 490) =~= "types::Funcflags::DETERMINISTI"@);
        text::lemma_fill_run(s, b, 460, "types::Funcflags::DETERMINISTI"@);
        reveal_strlit("C | types::Funcflags::STATELES");
        assert(s.subrange(490, 520) =~= "C | types::Funcflags::STATELES"@);
        text::lemma_fill_run(s, b, 490, "C | types::Funcflags::STATELES"@);
        reveal_strlit("S");
        assert(s.subrange(520, 521) =~= "S"@);
        text::lemma_fill_run(s, b, 520, "S"@);
        let rest = text::fill_from(s, b, 521);
        let part = "types::Funcflags::DETERMINISTIC | types::Funcflags::STATELESS"@;
        reveal_strlit("types::Funcflags::DETERMINISTIC | types::Funcflags::STATELESS");
        assert(("types::Funcflags::DETERMINISTI"@ + ("C | types::Funcflags::STATELES"@ + ("S"@ + rest)))
            =~= part + rest);
        assert(before
            + ("\".into(), \"window\".into()],\n  "@ + ("          attributes: "@ + (part + rest)))
            =~= (before + "\".into(), \"window\".into()],\n  "@ + "          attributes: "@)
                + (part + rest));
        words::lemma_piece_between(
            before + "\".into(), \"window\".into()],\n  "@ + "          attributes: "@,
            part,
            rest,
        );
    }
    assert(words::has_piece(
        text::fill(t::WINDOW_REGISTRATION@, b),
        "registry.register(\n            \""@ + sql_name
            + "\",\n            &args,\n            &"@ + ret_logical + ","@,
    )) by {
        let before = text::lemma_fill_reaches(s, b, 533);
        reveal_strlit(";\n        ");
        assert(s.subrange(533, 543) =~= ";\n        "@);
        text::lemma_fill_run(s, b, 533, ";\n        "@);
        reveal_strlit("registry.register(\n           ");
        assert(s.subrange(543, 573) =~= "registry.register(\n           "@);
        text::lemma_fill_run(s, b, 543, "registry.register(\n           "@);
        reveal_strlit(" \"");
        assert(s.subrange(573, 575) =~= " \""@);
        text::lemma_fill_run(s, b, 573, " \""@);
        reveal_strlit("sql_name");
        assert(s.subrange(576, 584) =~= "sql_name"@);
        text::lemma_fill_hole(s, b, 575, "sql_name"@);
        reveal_strlit("\",\n            &args,\n        ");
        assert(s.subrange(585, 615) =~= "\",\n            &args,\n        "@);
        text::lemma_fill_run(s, b, 585, "\",\n            &args,\n        "@);
        reveal_strlit("    &");
        assert(s.subrange(615, 620) =~= "    &"@);
        text::lemma_fill_run(s, b, 615, "    &"@);
        reveal_strlit("ret_logical");
        assert(s.subrange(621, 632) =~= "ret_logical"@);
        text::lemma_fill_hole(s, b, 620, "ret_logical"@);
        reveal_strlit(",");
        assert(s.subrange(633, 634) =~= ","@);
        text::lemma_fill_run(s, b, 633, ","@);
        let rest = text::fill_from(s, b, 634);
        let part = "registry.register(\n            \""@ + sql_name
            + "\",\n            &args,\n            &"@ + ret_logical + ","@;
        reveal_strlit("registry.register(\n            \"");
        reveal_strlit("\",\n            &args,\n            &");
        assert((
            "registry.register(\n           "@
                + (
                    " \""@
                        + (
                            sql_name
                                + (
                                    "\",\n            &args,\n        "@
                                        + ("    &"@ + (ret_logical + (","@ + rest)))
                                )
                        )
                )
        )
            =~= part + rest);
        assert(before + (";\n        "@ + (part + rest)) =~= (before + ";\n        "@) + (part + rest));
        words::lemma_piece_between(before + ";\n        "@, part, rest);
    }
}

proof fn lemma_table_registration(
    arm_idx: Seq<char>,
    sql_name: Seq<char>,
    args_block: Seq<char>,
    cols_block: Seq<char>,
)
    ensures
        words::has_piece(
            text::fill(
                t::TABLE_REGISTRATION@,
                seq![("arm_idx"@, arm_idx), ("sql_name"@, sql_name), ("args_block"@, args_block), ("cols_block"@, cols_block)],
            ),
            ".insert(handle, "@ + arm_idx + "usize);"@,
        ),
        words::has_piece(
            text::fill(
                t::TABLE_REGISTRATION@,
                seq![("arm_idx"@, arm_idx), ("sql_name"@, sql_name), ("args_block"@, args_block), ("cols_block"@, cols_block)],
            ),
            "runtime::TableCallback::new(handle)"@,
        ),
        words::has_piece(
            text::fill(
                t::TABLE_REGISTRATION@,
                seq![("arm_idx"@, arm_idx), ("sql_name"@, sql_name), ("args_block"@, args_block), ("cols_block"@, cols_block)],
            ),
            "let args: Vec<runtime::Funcarg> = vec![\n"@ + args_block + "        ];"@,
        ),
        words::has_piece(
            text::fill(
                t::TABLE_REGISTRATION@,
                seq![("arm_idx"@, arm_idx), ("sql_name"@, sql_name), ("args_block"@, args_block), ("cols_block"@, cols_block)],
            ),
            "let columns: Vec<runtime::Columndef> = vec![\n"@ + cols_block + "        ];"@,
        ),
        words::has_piece(
            text::fill(
                t::TABLE_REGISTRATION@,
                seq![("arm_idx"@, arm_idx), ("sql_name"@, sql_name), ("args_block"@, args_block), ("cols_block"@, cols_block)],
            ),
            "registry.register(\n            \""@ + sql_name
                + "\",\n            &args,\n            &columns,"@,
        ),
{
    let s = t::TABLE_REGISTRATION@;
    reveal_strlit(r#"
            .lock()
            .expect("table handle mutex poisoned")
            .insert(handle, {arm_idx}usize);
        let callback = runtime::TableCallback::new(handle);
        let args: Vec<runtime::Funcarg> = vec![
{args_block}        ];
        let columns: Vec<runtime::Columndef> = vec![
{cols_block}        ];
        registry.register(
            "{sql_name}",
            &args,
            &columns,
            callback,
            None,
        )?;
    }}
"#);
    reveal_with_fuel(text::plain_to, 31);
    let b = seq![("arm_idx"@, arm_idx), ("sql_name"@, sql_name), ("args_block"@, args_block), ("cols_block"@, cols_block)];
    lemma_holes_arm_idx_sql_name_args_block_cols_block(arm_idx, sql_name, args_block, cols_block);
    assert(words::has_piece(
        text::fill(t::TABLE_REGISTRATION@, b),
        ".insert(handle, "@ + arm_idx + "usize);"@,
    )) by {
        let before = text::lemma_fill_reaches(s, b, 0);
        reveal_strlit("\n            .lock()\n         ");
        assert(s.subrange(0, 30) =~= "\n            .lock()\n         "@);
        text::lemma_fill_run(s, b, 0, "\n            .lock()\n         "@);
        reveal_strlit("   .expect(\"table handle mutex");
        assert(s.subrange(30, 60) =~= "   .expect(\"table handle mutex"@);
        text::lemma_fill_run(s, b, 30, "   .expect(\"table handle mutex"@);
        reveal_strlit(" poisoned\")\n            ");
        assert(s.subrange(60, 84) =~= " poisoned\")\n            "@);
        text::lemma_fill_run(s, b, 60, " poisoned\")\n            "@);
        reveal_strlit(".insert(handle, ");
        assert(s.subrange(84, 100) =~= ".insert(handle, "@);
        text::lemma_fill_run(s, b, 84, ".insert(handle, "@);
        reveal_strlit("arm_idx");
        assert(s.subrange(101, 108) =~= "arm_idx"@);
        text::lemma_fill_hole(s, b, 100, "arm_idx"@);
        reveal_strlit("usize);");
        assert(s.subrange(109, 116) =~= "usize);"@);
        text::lemma_fill_run(s, b, 109, "usize);"@);
        let rest = text::fill_from(s, b, 116);
        let part = ".insert(handle, "@ + arm_idx + "usize);"@;
        assert((".insert(handle, "@ + (arm_idx + ("usize);"@ + rest))) =~= part + rest);
        assert(before
            + (
                "\n            .lock()\n         "@
                    + (
                        "   .expect(\"table handle mutex"@
                            + (" poisoned\")\n            "@ + (part + rest))
                    )
            )
            =~= (
                before + "\n            .lock()\n         "@ + "   .expect(\"table handle mutex"@
                    + " poisoned\")\n            "@
            ) + (part + rest));
        words::lemma_piece_between(
            before + "\n            .lock()\n         "@ + "   .expect(\"table handle mutex"@
                + " poisoned\")\n            "@,
            part,
            rest,
        );
    }
    assert(words::has_piece(text::fill(t::TABLE_REGISTRATION@, b), "runtime::TableCallback::new(handle)"@)) by {
        let before = text::lemma_fill_reaches(s, b, 109);
        reveal_strlit("usize);\n        let callback =");
        assert(s.subrange(109, 139) =~= "usize);\n        let callback ="@);
        text::lemma_fill_run(s, b, 109, "usize);\n        let callback ="@);
        reveal_strlit(" ");
        assert(s.subrange(139, 140) =~= " "@);
        text::lemma_fill_run(s, b, 139, " "@);
        reveal_strlit("runtime::TableCallback::new(ha");
        assert(s.subrange(140, 170) =~= "runtime::TableCallback::new(ha"@);
        text::lemma_fill_run(s, b, 140, "runtime::TableCallback::new(ha"@);
        reveal_strlit("ndle)");
        assert(s.subrange(170, 175) =~= "ndle)"@);
        text::lemma_fill_run(s, b, 170, "ndle)"@);
        let rest = text::fill_from(s, b, 175);
        let part = "runtime::TableCallback::new(handle)"@;
        reveal_strlit("runtime::TableCallback::new(handle)");
        assert(("runtime::TableCallback::new(ha"@ + ("ndle)"@ + rest)) =~= part + rest);
        assert(before + ("usize);\n        let callback ="@ + (" "@ + (part + rest)))
            =~= (before + "usize);\n        let callback ="@ + " "@) + (part + rest));
        words::lemma_piece_between(before + "usize);\n        let callback ="@ + " "@, part, rest);
    }
    assert(words::has_piece(
        text::fill(t::TABLE_REGISTRATION@, b),
        "let args: Vec<runtime::Funcarg> = vec![\n"@ + args_block + "        ];"@,
    )) by {
        let before = text::lemma_fill_reaches(s, b, 109);
        reveal_strlit("usize);\n        let callback =");
        assert(s.subrange(109, 139) =~= "usize);\n        let callback ="@);
        text::lemma_fill_run(s, b, 109, "usize);\n        let callback ="@);
        reveal_strlit(" runtime::TableCallback::new(h");
        assert(s.subrange(139, 169) =~= " runtime::TableCallback::new(h"@);
        text::lemma_fill_run(s, b, 139, " runtime::TableCallback::new(h"@);
        reveal_strlit("andle);\n        ");
        assert(s.subrange(169, 185) =~= "andle);\n        "@);
        text::lemma_fill_run(s, b, 169, "andle);\n        "@);
        reveal_strlit("let args: Vec<runtime::Funcarg");
        assert(s.subrange(185, 215) =~= "let args: Vec<runtime::Funcarg"@);
        text::lemma_fill_run(s, b, 185, "let args: Vec<runtime::Funcarg"@);
        reveal_strlit("> = vec![\n");
        assert(s.subrange(215, 225) =~= "> = vec![\n"@);
        text::lemma_fill_run(s, b, 215, "> = vec![\n"@);
        reveal_strlit("args_block");
        assert(s.subrange(226, 236) =~= "args_block"@);
        text::lemma_fill_hole(s, b, 225, "args_block"@);
        reveal_strlit("        ];");
        assert(s.subrange(237, 247) =~= "        ];"@);
        text::lemma_fill_run(s, b, 237, "        ];"@);
        let rest = text::fill_from(s, b, 247);
        let part = "let args: Vec<runtime::Funcarg> = vec![\n"@ + args_block + "        ];"@;
        reveal_strlit("let args: Vec<runtime::Funcarg> = vec![\n");
        assert((
            "let args: Vec<runtime::Funcarg"@
                + ("> = vec![\n"@ + (args_block + ("        ];"@ + rest)))
        )
            =~= part + rest);
        assert(before
            + (
                "usize);\n        let callback ="@
                    + (" runtime::TableCallback::new(h"@ + ("andle);\n        "@ + (part + rest)))
            )
            =~= (
                before + "usize);\n        let callback ="@ + " runtime::TableCallback::new(h"@
                    + "andle);\n        "@
            ) + (part + rest));
        words::lemma_piece_between(
            before + "usize);\n        let callback ="@ + " runtime::TableCallback::new(h"@
                + "andle);\n        "@,
            part,
            rest,
        );
    }
    assert(words::has_piece(
        text::fill(t::TABLE_REGISTRATION@, b),
        "let columns: Vec<runtime::Columndef> = vec![\n"@ + cols_block + "        ];"@,
    )) by {
        let before = text::lemma_fill_reaches(s, b, 237);
        reveal_strlit("        ];\n        ");
        assert(s.subrange(237, 256) =~= "        ];\n        "@);
        text::lemma_fill_run(s, b, 237, "        ];\n        "@);
        reveal_strlit("let columns: Vec<runtime::Colu");
        assert(s.subrange(256, 286) =~= "let columns: Vec<runtime::Colu"@);
        text::lemma_fill_run(s, b, 256, "let columns: Vec<runtime::Colu"@);
        reveal_strlit("mndef> = vec![\n");
        assert(s.subrange(286, 301) =~= "mndef> = vec![\n"@);
        text::lemma_fill_run(s, b, 286, "mndef> = vec![\n"@);
        reveal_strlit("cols_block");
        assert(s.subrange(302, 312) =~= "cols_block"@);
        text::lemma_fill_hole(s, b, 301, "cols_block"@);
        reveal_strlit("        ];");
        assert(s.subrange(313, 323) =~= "        ];"@);
        text::lemma_fill_run(s, b, 313, "        ];"@);
        let rest = text::fill_from(s, b, 323);
        let part = "let columns: Vec<runtime::Columndef> = vec![\n"@ + cols_block + "        ];"@;
        reveal_strlit("let columns: Vec<runtime::Columndef> = vec![\n");
        assert((
            "let columns: Vec<runtime::Colu"@
                + ("mndef> = vec![\n"@ + (cols_block + ("        ];"@ + rest)))
        )
            =~= part + rest);
        assert(before + ("        ];\n        "@ + (part + rest))
            =~= (before + "        ];\n        "@) + (part + rest));
        words::lemma_piece_between(before + "        ];\n        "@, part, rest);
    }
    assert(words::has_piece(
        text::fill(t::TABLE_REGISTRATION@, b),
        "registry.register(\n            \""@ + sql_name
            + "\",\n            &args,\n            &columns,"@,
    )) by {
        let before = text::lemma_fill_reaches(s, b, 313);
        reveal_strlit("        ];\n        ");
        assert(s.subrange(313, 332) =~= "        ];\n        "@);
        text::lemma_fill_run(s, b, 313, "        ];\n        "@);
        reveal_strlit("registry.register(\n           ");
        assert(s.subrange(332, 362) =~= "registry.register(\n           "@);
        text::lemma_fill_run(s, b, 332, "registry.register(\n           "@);
        reveal_strlit(" \"");
        assert(s.subrange(362, 364) =~= " \""@);
        text::lemma_fill_run(s, b, 362, " \""@);
        reveal_strlit("sql_name");
        assert(s.subrange(365, 373) =~= "sql_name"@);
        text::lemma_fill_hole(s, b, 364, "sql_name"@);
        reveal_strlit("\",\n            &args,\n        ");
        assert(s.subrange(374, 404) =~= "\",\n            &args,\n        "@);
        text::lemma_fill_run(s, b, 374, "\",\n            &args,\n        "@);
        reveal_strlit("    &columns,");
        assert(s.subrange(404, 417) =~= "    &columns,"@);
        text::lemma_fill_run(s, b, 404, "    &columns,"@);
        let rest = text::fill_from(s, b, 417);
        let part = "registry.register(\n            \""@ + sql_name
            + "\",\n            &args,\n            &columns,"@;
        reveal_strlit("registry.register(\n            \"");
        reveal_strlit("\",\n            &args,\n            &columns,");
        assert((
            "registry.register(\n           "@
                + (
                    " \""@
                        + (
                            sql_name
                                + ("\",\n            &args,\n        "@ + ("    &columns,"@ + rest))
                        )
                )
        )
            =~= part + rest);
        assert(before + ("        ];\n        "@ + (part + rest))
            =~= (before + "        ];\n        "@) + (part + rest));
        words::lemma_piece_between(before + "        ];\n        "@, part, rest);
    }
}

proof fn lemma_cast_registration(
    source_kind: Seq<char>,
    to_type: Seq<char>,
    fn_name: Seq<char>,
    scalar_arm_idx: Seq<char>,
    from_type: Seq<char>,
    kind_variant: Seq<char>,
)
    ensures
        words::has_piece(
            text::fill(
                t::CAST_REGISTRATION@,
                seq![("source_kind"@, source_kind), ("to_type"@, to_type), ("fn_name"@, fn_name), ("scalar_arm_idx"@, scalar_arm_idx), ("from_type"@, from_type), ("kind_variant"@, kind_variant)],
            ),
            ".insert(handle, "@ + scalar_arm_idx + "usize);"@,
        ),
        words::has_piece(
            text::fill(
                t::CAST_REGISTRATION@,
                seq![("source_kind"@, source_kind), ("to_type"@, to_type), ("fn_name"@, fn_name), ("scalar_arm_idx"@, scalar_arm_idx), ("from_type"@, from_type), ("kind_variant"@, kind_variant)],
            ),
            "runtime::CastCallback::new(handle)"@,
        ),
        words::has_piece(
            text::fill(
                t::CAST_REGISTRATION@,
                seq![("source_kind"@, source_kind), ("to_type"@, to_type), ("fn_name"@, fn_name), ("scalar_arm_idx"@, scalar_arm_idx), ("from_type"@, from_type), ("kind_variant"@, kind_variant)],
            ),
            "from: \""@ + from_type + "\".into(),"@,
        ),
        words::has_piece(
            text::fill(
                t::CAST_REGISTRATION@,
                seq![("source_kind"@, source_kind), ("to_type"@, to_type), ("fn_name"@, fn_name), ("scalar_arm_idx"@, scalar_arm_idx), ("from_type"@, from_type), ("kind_variant"@, kind_variant)],
            ),
            "to: \""@ + to_type + "\".into(),"@,
        ),
        words::has_piece(
            text::fill(
                t::CAST_REGISTRATION@,
                seq![("source_kind"@, source_kind), ("to_type"@, to_type), ("fn_name"@, fn_name), ("scalar_arm_idx"@, scalar_arm_idx), ("from_type"@, from_type), ("kind_variant"@, kind_variant)],
            ),
            "kind: catalog::CastKind::"@ + kind_variant + ","@,
        ),
{
    let s = t::CAST_REGISTRATION@;
    reveal_strlit(r#"
            .lock()
            .expect("scalar handle mutex poisoned")
            .insert(handle, {scalar_arm_idx}usize);
        let callback = runtime::CastCallback::new(handle);
        let spec = catalog::CastSpec {{
            from: "{from_type}".into(),
            to: "{to_type}".into(),
            kind: catalog::CastKind::{kind_variant},
        }};
        catalog::register_cast(&spec, callback).map_err(|e| {{
            types::Duckerror::Internal(format!(
                "register-cast({fn_name}: {from_type} -> {to_type}): {{}}", e
            ))
        }})?;
    }}
"#);
    reveal_with_fuel(text::plain_to, 31);
    let b = seq![("source_kind"@, source_kind), ("to_type"@, to_type), ("fn_name"@, fn_name), ("scalar_arm_idx"@, scalar_arm_idx), ("from_type"@, from_type), ("kind_variant"@, kind_variant)];
    lemma_holes_source_kind_to_type_fn_name_scalar_arm_idx_from_type_kind_variant(
        source_kind,
        to_type,
        fn_name,
        scalar_arm_idx,
        from_type,
        kind_variant,
    );
    assert(words::has_piece(
        text::fill(t::CAST_REGISTRATION@, b),
        ".insert(handle, "@ + scalar_arm_idx + "usize);"@,
    )) by {
        let before = text::lemma_fill_reaches(s, b, 0);
        reveal_strlit("\n            .lock()\n         ");
        assert(s.subrange(0, 30) =~= "\n            .lock()\n         "@);
        text::lemma_fill_run(s, b, 0, "\n            .lock()\n         "@);
        reveal_strlit("   .expect(\"scalar handle mute");
        assert(s.subrange(30, 60) =~= "   .expect(\"scalar handle mute"@);
        text::lemma_fill_run(s, b, 30, "   .expect(\"scalar handle mute"@);
        reveal_strlit("x poisoned\")\n            ");
        assert(s.subrange(60, 85) =~= "x poisoned\")\n            "@);
        text::lemma_fill_run(s, b, 60, "x poisoned\")\n            "@);
        reveal_strlit(".insert(handle, ");
        assert(s.subrange(85, 101) =~= ".insert(handle, "@);
        text::lemma_fill_run(s, b, 85, ".insert(handle, "@);
        reveal_strlit("scalar_arm_idx");
        assert(s.subrange(102, 116) =~= "scalar_arm_idx"@);
        text::lemma_fill_hole(s, b, 101, "scalar_arm_idx"@);
        reveal_strlit("usize);");
        assert(s.subrange(117, 124) =~= "usize);"@);
        text::lemma_fill_run(s, b, 117, "usize);"@);
        let rest = text::fill_from(s, b, 124);
        let part = ".insert(handle, "@ + scalar_arm_idx + "usize);"@;
        assert((".insert(handle, "@ + (scalar_arm_idx + ("usize);"@ + rest))) =~= part + rest);
        assert(before
            + (
                "\n            .lock()\n         "@
                    + (
                        "   .expect(\"scalar handle mute"@
                            + ("x poisoned\")\n            "@ + (part + rest))
                    )
            )
            =~= (
                before + "\n            .lock()\n         "@ + "   .expect(\"scalar handle mute"@
                    + "x poisoned\")\n            "@
            ) + (part + rest));
        words::lemma_piece_between(
            before + "\n            .lock()\n         "@ + "   .expect(\"scalar handle mute"@
                + "x poisoned\")\n            "@,
            part,
            rest,
        );
    }
    assert(words::has_piece(text::fill(t::CAST_REGISTRATION@, b), "runtime::CastCallback::new(handle)"@)) by {
        let before = text::lemma_fill_reaches(s, b, 117);
        reveal_strlit("usize);\n        let callback =");
        assert(s.subrange(117, 147) =~= "usize);\n        let callback ="@);
        text::lemma_fill_run(s, b, 117, "usize);\n        let callback ="@);
        reveal_strlit(" ");
        assert(s.subrange(147, 148) =~= " "@);
        text::lemma_fill_run(s, b, 147, " "@);
        reveal_strlit("runtime::CastCallback::new(han");
        assert(s.subrange(148, 178) =~= "runtime::CastCallback::new(han"@);
        text::lemma_fill_run(s, b, 148, "runtime::CastCallback::new(han"@);
        reveal_strlit("dle)");
        assert(s.subrange(178, 182) =~= "dle)"@);
        text::lemma_fill_run(s, b, 178, "dle)"@);
        let rest = text::fill_from(s, b, 182);
        let part = "runtime::CastCallback::new(handle)"@;
        reveal_strlit("runtime::CastCallback::new(handle)");
        assert(("runtime::CastCallback::new(han"@ + ("dle)"@ + rest)) =~= part + rest);
        assert(before + ("usize);\n        let callback ="@ + (" "@ + (part + rest)))
            =~= (before + "usize);\n        let callback ="@ + " "@) + (part + rest));
        words::lemma_piece_between(before + "usize);\n        let callback ="@ + " "@, part, rest);
    }
    assert(words::has_piece(text::fill(t::CAST_REGISTRATION@, b), "from: \""@ + from_type + "\".into(),"@)) by {
        let before = text::lemma_fill_reaches(s, b, 117);
        reveal_strlit("usize);\n        let callback =");
        assert(s.subrange(117, 147) =~= "usize);\n        let callback ="@);
        text::lemma_fill_run(s, b, 117, "usize);\n        let callback ="@);
        reveal_strlit(" runtime::CastCallback::new(ha");
        assert(s.subrange(147, 177) =~= " runtime::CastCallback::new(ha"@);
        text::lemma_fill_run(s, b, 147, " runtime::CastCallback::new(ha"@);
        reveal_strlit("ndle);\n        let spec = cata");
        assert(s.subrange(177, 207) =~= "ndle);\n        let spec = cata"@);
        text::lemma_fill_run(s, b, 177, "ndle);\n        let spec = cata"@);
        reveal_strlit("log::CastSpec ");
        assert(s.subrange(207, 221) =~= "log::CastSpec "@);
        text::lemma_fill_run(s, b, 207, "log::CastSpec "@);
        assert(text::fill_from(s, b, 221) == seq!['{'] + text::fill_from(s, b, 223));
        reveal_strlit("\n            ");
        assert(s.subrange(223, 236) =~= "\n            "@);
        text::lemma_fill_run(s, b, 223, "\n            "@);
        reveal_strlit("from: \"");
        assert(s.subrange(236, 243) =~= "from: \""@);
        text::lemma_fill_run(s, b, 236, "from: \""@);
        reveal_strlit("from_type");
        assert(s.subrange(244, 253) =~= "from_type"@);
        text::lemma_fill_hole(s, b, 243, "from_type"@);
        reveal_strlit("\".into(),");
        assert(s.subrange(254, 263) =~= "\".into(),"@);
        text::lemma_fill_run(s, b, 254, "\".into(),"@);
        let rest = text::fill_from(s, b, 263);
        let part = "from: \""@ + from_type + "\".into(),"@;
        assert(("from: \""@ + (from_type + ("\".into(),"@ + rest))) =~= part + rest);
        assert(before
            + (
                "usize);\n        let callback ="@
                    + (
                        " runtime::CastCallback::new(ha"@
                            + (
                                "ndle);\n        let spec = cata"@
                                    + (
                                        "log::CastSpec "@
                                            + (seq!['{'] + ("\n            "@ + (part + rest)))
                                    )
                            )
                    )
            )
            =~= (
                before + "usize);\n        let callback ="@ + " runtime::CastCallback::new(ha"@
                    + "ndle);\n        let spec = cata"@ + "log::CastSpec "@ + seq!['{']
                    + "\n            "@
            ) + (part + rest));
        words::lemma_piece_between(
            before + "usize);\n        let callback ="@ + " runtime::CastCallback::new(ha"@
                + "ndle);\n        let spec = cata"@ + "log::CastSpec "@ + seq!['{']
                + "\n            "@,
            part,
            rest,
        );
    }
    assert(words::has_piece(text::fill(t::CAST_REGISTRATION@, b), "to: \""@ + to_type + "\".into(),"@)) by {
        let before = text::lemma_fill_reaches(s, b, 254);
        reveal_strlit("\".into(),\n            ");
        assert(s.subrange(254, 276) =~= "\".into(),\n            "@);
        text::lemma_fill_run(s, b, 254, "\".into(),\n            "@);
        reveal_strlit("to: \"");
        assert(s.subrange(276, 281) =~= "to: \""@);
        text::lemma_fill_run(s, b, 276, "to: \""@);
        reveal_strlit("to_type");
        assert(s.subrange(282, 289) =~= "to_type"@);
        text::lemma_fill_hole(s, b, 281, "to_type"@);
        reveal_strlit("\".into(),");
        assert(s.subrange(290, 299) =~= "\".into(),"@);
        text::lemma_fill_run(s, b, 290, "\".into(),"@);
        let rest = text::fill_from(s, b, 299);
        let part = "to: \""@ + to_type + "\".into(),"@;
        assert(("to: \""@ + (to_type + ("\".into(),"@ + rest))) =~= part + rest);
        assert(before + ("\".into(),\n            "@ + (part + rest))
            =~= (before + "\".into(),\n            "@) + (part + rest));
        words::lemma_piece_between(before + "\".into(),\n            "@, part, rest);
    }
    assert(words::has_piece(
        text::fill(t::CAST_REGISTRATION@, b),
        "kind: catalog::CastKind::"@ + kind_variant + ","@,
    )) by {
        let before = text::lemma_fill_reaches(s, b, 290);
        reveal_strlit("\".into(),\n            ");
        assert(s.subrange(290, 312) =~= "\".into(),\n            "@);
        text::lemma_fill_run(s, b, 290, "\".into(),\n            "@);
        reveal_strlit("kind: catalog::CastKind::");
        assert(s.subrange(312, 337) =~= "kind: catalog::CastKind::"@);
        text::lemma_fill_run(s, b, 312, "kind: catalog::CastKind::"@);
        reveal_strlit("kind_variant");
        assert(s.subrange(338, 350) =~= "kind_variant"@);
        text::lemma_fill_hole(s, b, 337, "kind_variant"@);
        reveal_strlit(",");
        assert(s.subrange(351, 352) =~= ","@);
        text::lemma_fill_run(s, b, 351, ","@);
        let rest = text::fill_from(s, b, 352);
        let part = "kind: catalog::CastKind::"@ + kind_variant + ","@;
        assert(("kind: catalog::CastKind::"@ + (kind_variant + (","@ + rest))) =~= part + rest);
        assert(before + ("\".into(),\n            "@ + (part + rest))
            =~= (before + "\".into(),\n            "@) + (part + rest));
        words::lemma_piece_between(before + "\".into(),\n            "@, part, rest);
    }
}

} // verus!
