//! What the functions that compute window functions do, and what is listed of each function.

use vstd::prelude::*;
use vstd::string::*;

use crate::ir::{ParamShape, WindowEntry, WindowReturn};
use crate::sqlite::emit_window;
use crate::sqlite::lib_templates as t;
use crate::sqlite::listing;
use crate::text;
use crate::words;

verus! {

// ─── Window functions ───

/// Extra argument `j` of a window function is read from the first row, behind the value of the
/// row, with the reader of its shape.
pub proof fn law_window_extra_readings(p: ParamShape, j: nat, name: Seq<char>, line: Seq<char>)
    requires
        line == text::fill(
            emit_window::window_extra_template(p),
            seq![
                ("j"@, words::decimal(j)),
                ("arg_index"@, words::decimal((j + 1) as nat)),
                ("name"@, name),
            ],
        ),
    ensures
        ({
            let d = words::decimal(j);
            let next = words::decimal((j + 1) as nat);
            match p {
                ParamShape::F64 => line
                    == "    let extra"@ + d + " = arg_f64(&rows[0], "@ + next + ", \""@ + name
                        + "\")?;\n"@,
                ParamShape::S32 => line
                    == "    let extra"@ + d + " = arg_i64(&rows[0], "@ + next + ", \""@ + name
                        + "\")? as i32;\n"@,
                ParamShape::S64 => line
                    == "    let extra"@ + d + " = arg_i64(&rows[0], "@ + next + ", \""@ + name
                        + "\")?;\n"@,
                ParamShape::U32 => line
                    == "    let extra"@ + d + " = arg_i64(&rows[0], "@ + next + ", \""@ + name
                        + "\")? as u32;\n"@,
                ParamShape::U64 => line
                    == "    let extra"@ + d + " = arg_i64(&rows[0], "@ + next + ", \""@ + name
                        + "\")? as u64;\n"@,
                ParamShape::Bool => line
                    == "    let extra"@ + d + " = arg_i64(&rows[0], "@ + next + ", \""@ + name
                        + "\")? != 0;\n"@,
                ParamShape::Text => line
                    == "    let extra"@ + d + " = arg_text(&rows[0], "@ + next + ", \""@ + name
                        + "\")?.to_string();\n"@,
                ParamShape::Blob => line
                    == "    let extra"@ + d + " = arg_blob(&rows[0], "@ + next + ", \""@ + name
                        + "\")?.to_vec();\n"@,
                _ => !emit_window::window_extra_wired(p),
            }
        }),
{
    let d = words::decimal(j);
    let next = words::decimal((j + 1) as nat);
    match p {
        ParamShape::F64 => lemma_extra_f64(d, next, name),
        ParamShape::S32 => lemma_extra_s32(d, next, name),
        ParamShape::S64 => lemma_extra_s64(d, next, name),
        ParamShape::U32 => lemma_extra_u32(d, next, name),
        ParamShape::U64 => lemma_extra_u64(d, next, name),
        ParamShape::Bool => lemma_extra_bool(d, next, name),
        ParamShape::Text => lemma_extra_text(d, next, name),
        ParamShape::Blob => lemma_extra_blob(d, next, name),
        _ => {},
    }
}

proof fn lemma_declared(extras: Seq<ParamShape>, name: Seq<char>, n: nat, j: int)
    requires
        0 <= j < n <= extras.len(),
    ensures
        words::has_piece(emit_window::window_decls(extras, name, n), window_extra(extras, name, j)),
    decreases n,
{
    let before = emit_window::window_decls(extras, name, (n - 1) as nat);
    let last = window_extra(extras, name, n - 1);
    if j == n - 1 {
        words::lemma_piece_added(before, last);
    } else {
        lemma_declared(extras, name, (n - 1) as nat, j);
        words::lemma_piece_kept(before, last, window_extra(extras, name, j));
    }
}

/// The declaration of extra argument `j`.
pub open spec fn window_extra(extras: Seq<ParamShape>, name: Seq<char>, j: int) -> Seq<char> {
    text::fill(
        emit_window::window_extra_template(extras[j]),
        seq![
            ("j"@, words::decimal(j as nat)),
            ("arg_index"@, words::decimal((j + 1) as nat)),
            ("name"@, name),
        ],
    )
}

/// The function that computes a window function bears the number of the function in its name. It
/// decodes the geometry of each row, declares each extra argument, and calls the function with the
/// geometries and the extra arguments in their order, texts and blobs by reference. Numbers become
/// integers, missing ones null, and geometries blobs.
pub proof fn law_window_computed(entry: WindowEntry, id: nat, parts: Seq<Seq<char>>, j: int)
    requires
        parts.len() == entry.shape.extra_args@.len(),
        forall|k: int|
            0 <= k < parts.len() ==> #[trigger] parts[k] == match entry.shape.extra_args@[k] {
                ParamShape::Text | ParamShape::Blob => "&extra"@ + words::decimal(k as nat),
                _ => "extra"@ + words::decimal(k as nat),
            },
    ensures
        ({
            let s = emit_window::compute_window(entry, id);
            let name = entry.sql_name@;
            let more = if parts.len() == 0 {
                Seq::empty()
            } else {
                ", "@ + words::joined(parts, ", "@)
            };
            let chain = if entry.shape.fallible {
                ".map_err(|e| format!(\""@ + name + ": {}\", postgis_err_string(e)))?"@
            } else {
                Seq::empty()
            };
            &&& words::has_piece(
                s,
                "fn compute_window_"@ + words::decimal(id)
                    + "(rows: &[Vec<SqlValue>]) -> Result<Vec<SqlValue>, String> "@,
            )
            &&& words::has_piece(s, "let bytes = arg_blob(row, 0, \""@ + name + "\")?;"@)
            &&& words::has_piece(s, "Geometry::from_wkb(bytes)"@)
            &&& 0 <= j < parts.len() ==> words::has_piece(
                s,
                window_extra(entry.shape.extra_args@, name, j),
            )
            &&& words::has_piece(
                s,
                "let labels = "@ + entry.shape.wit_module@ + "::"@ + entry.shape.wit_func@
                    + "(&geom_refs"@ + more + ")"@ + chain + ";"@,
            )
            &&& match entry.shape.returns {
                WindowReturn::OptionU32 => {
                    &&& words::has_piece(s, "Some(id) => SqlValue::Integer(id as i64)"@)
                    &&& words::has_piece(s, "None => SqlValue::Null"@)
                },
                WindowReturn::U32 => {
                    &&& words::has_piece(s, ".map(|id| SqlValue::Integer(id as i64))"@)
                },
                WindowReturn::GeomBlob => {
                    &&& words::has_piece(s, ".map(|g| SqlValue::Blob(g.as_wkb()))"@)
                },
            }
        }),
{
    let name = entry.sql_name@;
    let extras = entry.shape.extra_args@;
    assert(emit_window::window_extras(extras) =~= parts);
    let more = emit_window::window_call_extras(extras);
    let chain = if entry.shape.fallible {
        text::fill(t::MAP_ERR@, seq![("name"@, name)])
    } else {
        Seq::empty()
    };
    let labels = emit_window::labels_template(entry.shape.returns);
    let decls = emit_window::window_decls(extras, name, extras.len());
    let s = emit_window::compute_window(entry, id);
    lemma_map_err(name);
    lemma_compute_window(
        name,
        words::decimal(id),
        emit_window::return_word(entry.shape.returns),
        emit_window::compute_name(id),
        decls,
        entry.shape.wit_module@,
        entry.shape.wit_func@,
        more,
        chain,
        labels,
    );
    words::lemma_pieces_of_piece(s, labels);
    if 0 <= j < parts.len() {
        lemma_declared(extras, name, extras.len(), j);
        words::lemma_piece_of_piece(s, decls, window_extra(extras, name, j));
    }
    reveal_strlit("fn ");
    reveal_strlit("compute_window_");
    reveal_strlit("fn compute_window_");
    assert("fn "@ + "compute_window_"@ =~= "fn compute_window_"@);
    assert("fn "@ + emit_window::compute_name(id) =~= "fn compute_window_"@ + words::decimal(id));
    match entry.shape.returns {
        WindowReturn::OptionU32 => lemma_labels_option_u32(),
        WindowReturn::U32 => lemma_labels_u32(),
        WindowReturn::GeomBlob => lemma_labels_geom(),
    }
}

// ─── Listing ───

/// What is listed of a function is its number, its name and its number of arguments; a scalar is
/// listed as deterministic only where it is, an aggregate as a window function only where it is
/// one, and a table as one that can be read without being created.
pub proof fn law_listed_entries(id: nat, name: Seq<char>, num_args: int, flag: bool)
    ensures
        ({
            let args = if num_args < 0 {
                "-"@ + words::decimal((-num_args) as nat)
            } else {
                words::decimal(num_args as nat)
            };
            let flags = if flag {
                "det"@
            } else {
                "FunctionFlags::empty()"@
            };
            let is_window = if flag {
                "true"@
            } else {
                "false"@
            };
            &&& listing::scalar_entry(id, name, num_args, flag)
                == "            ScalarFunctionSpec { id: "@ + words::decimal(id) + ", name: \""@
                    + words::escaped(name) + "\".into(), num_args: "@ + args + ", func_flags: "@
                    + flags + " },\n"@
            &&& listing::aggregate_entry(id, name, num_args, flag)
                == "            AggregateFunctionSpec { id: "@ + words::decimal(id) + ", name: \""@
                    + words::escaped(name) + "\".into(), num_args: "@ + args
                    + ", func_flags: FunctionFlags::empty(), is_window: "@ + is_window + " },\n"@
            &&& listing::vtab_entry(id, name)
                == "            VtabSpec { id: "@ + words::decimal(id) + ", name: \""@
                    + words::escaped(name)
                    + "\".into(), eponymous: true, mutable: false, batched: false },\n"@
        }),
{
    let d = words::decimal(id);
    let e = words::escaped(name);
    let args = listing::signed(num_args);
    lemma_scalar_entry(
        d,
        e,
        args,
        if flag {
            "det"@
        } else {
            "FunctionFlags::empty()"@
        },
    );
    lemma_aggregate_entry(
        d,
        e,
        args,
        if flag {
            "true"@
        } else {
            "false"@
        },
    );
    lemma_vtab_entry(d, e);
}

proof fn lemma_labels_option_u32()
    ensures
        words::has_piece(t::LABELS_OPTION_U32@, "Some(id) => SqlValue::Integer(id as i64)"@),
        words::has_piece(t::LABELS_OPTION_U32@, "None => SqlValue::Null"@),
{
    let s = t::LABELS_OPTION_U32@;
    reveal_strlit(r#"    Ok(labels
        .into_iter()
        .map(|opt| match opt {
            Some(id) => SqlValue::Integer(id as i64),
            None => SqlValue::Null,
        })
        .collect())
"#);
    reveal_strlit("Some(id) => SqlValue::Integer(id as i64)");
    assert(s.subrange(78, 118) =~= "Some(id) => SqlValue::Integer(id as i64)"@);
    assert(words::stands_at(s, "Some(id) => SqlValue::Integer(id as i64)"@, 78));
    reveal_strlit("None => SqlValue::Null");
    assert(s.subrange(132, 154) =~= "None => SqlValue::Null"@);
    assert(words::stands_at(s, "None => SqlValue::Null"@, 132));
}

proof fn lemma_labels_u32()
    ensures
        words::has_piece(t::LABELS_U32@, ".map(|id| SqlValue::Integer(id as i64))"@),
{
    let s = t::LABELS_U32@;
    reveal_strlit(r#"    Ok(labels
        .into_iter()
        .map(|id| SqlValue::Integer(id as i64))
        .collect())
"#);
    reveal_strlit(".map(|id| SqlValue::Integer(id as i64))");
    assert(s.subrange(43, 82) =~= ".map(|id| SqlValue::Integer(id as i64))"@);
    assert(words::stands_at(s, ".map(|id| SqlValue::Integer(id as i64))"@, 43));
}

proof fn lemma_labels_geom()
    ensures
        words::has_piece(t::LABELS_GEOM@, ".map(|g| SqlValue::Blob(g.as_wkb()))"@),
{
    let s = t::LABELS_GEOM@;
    reveal_strlit(r#"    Ok(labels
        .into_iter()
        .map(|g| SqlValue::Blob(g.as_wkb()))
        .collect())
"#);
    reveal_strlit(".map(|g| SqlValue::Blob(g.as_wkb()))");
    assert(s.subrange(43, 79) =~= ".map(|g| SqlValue::Blob(g.as_wkb()))"@);
    assert(words::stands_at(s, ".map(|g| SqlValue::Blob(g.as_wkb()))"@, 43));
}

proof fn lemma_holes_j_arg_index_name(j: Seq<char>, arg_index: Seq<char>, name: Seq<char>)
    ensures
        ({
            let b = seq![("j"@, j), ("arg_index"@, arg_index), ("name"@, name)];
            &&& text::lookup_from(b, "j"@, 0) == j
            &&& text::lookup_from(b, "arg_index"@, 0) == arg_index
            &&& text::lookup_from(b, "name"@, 0) == name
        }),
{
    reveal_strlit("j");
    reveal_strlit("arg_index");
    reveal_strlit("name");
    reveal_with_fuel(text::lookup_from, 4);
    assert("j"@.len() != "arg_index"@.len());
    assert("j"@.len() != "name"@.len());
    assert("arg_index"@.len() != "name"@.len());
}

proof fn lemma_holes_name_id_returns_dbg_compute_fn_extras_module_func_call_extras_lit_map_err_row_to_sqlvalue(
    name: Seq<char>,
    id: Seq<char>,
    returns_dbg: Seq<char>,
    compute_fn: Seq<char>,
    extras: Seq<char>,
    module: Seq<char>,
    func: Seq<char>,
    call_extras_lit: Seq<char>,
    map_err: Seq<char>,
    row_to_sqlvalue: Seq<char>,
)
    ensures
        ({
            let b = seq![("name"@, name), ("id"@, id), ("returns_dbg"@, returns_dbg), ("compute_fn"@, compute_fn), ("extras"@, extras), ("module"@, module), ("func"@, func), ("call_extras_lit"@, call_extras_lit), ("map_err"@, map_err), ("row_to_sqlvalue"@, row_to_sqlvalue)];
            &&& text::lookup_from(b, "name"@, 0) == name
            &&& text::lookup_from(b, "id"@, 0) == id
            &&& text::lookup_from(b, "returns_dbg"@, 0) == returns_dbg
            &&& text::lookup_from(b, "compute_fn"@, 0) == compute_fn
            &&& text::lookup_from(b, "extras"@, 0) == extras
            &&& text::lookup_from(b, "module"@, 0) == module
            &&& text::lookup_from(b, "func"@, 0) == func
            &&& text::lookup_from(b, "call_extras_lit"@, 0) == call_extras_lit
            &&& text::lookup_from(b, "map_err"@, 0) == map_err
            &&& text::lookup_from(b, "row_to_sqlvalue"@, 0) == row_to_sqlvalue
        }),
{
    reveal_strlit("name");
    reveal_strlit("id");
    reveal_strlit("returns_dbg");
    reveal_strlit("compute_fn");
    reveal_strlit("extras");
    reveal_strlit("module");
    reveal_strlit("func");
    reveal_strlit("call_extras_lit");
    reveal_strlit("map_err");
    reveal_strlit("row_to_sqlvalue");
    reveal_with_fuel(text::lookup_from, 11);
    assert("name"@.len() != "id"@.len());
    assert("name"@.len() != "returns_dbg"@.len());
    assert("name"@.len() != "compute_fn"@.len());
    assert("name"@.len() != "extras"@.len());
    assert("name"@.len() != "module"@.len());
    assert("name"@[0] != "func"@[0]);
    assert("name"@.len() != "call_extras_lit"@.len());
    assert("name"@.len() != "map_err"@.len());
    assert("name"@.len() != "row_to_sqlvalue"@.len());
    assert("id"@.len() != "returns_dbg"@.len());
    assert("id"@.len() != "compute_fn"@.len());
    assert("id"@.len() != "extras"@.len());
    assert("id"@.len() != "module"@.len());
    assert("id"@.len() != "func"@.len());
    assert("id"@.len() != "call_extras_lit"@.len());
    assert("id"@.len() != "map_err"@.len());
    assert("id"@.len() != "row_to_sqlvalue"@.len());
    assert("returns_dbg"@.len() != "compute_fn"@.len());
    assert("returns_dbg"@.len() != "extras"@.len());
    assert("returns_dbg"@.len() != "module"@.len());
    assert("returns_dbg"@.len() != "func"@.len());
    assert("returns_dbg"@.len() != "call_extras_lit"@.len());
    assert("returns_dbg"@.len() != "map_err"@.len());
    assert("returns_dbg"@.len() != "row_to_sqlvalue"@.len());
    assert("compute_fn"@.len() != "extras"@.len());
    assert("compute_fn"@.len() != "module"@.len());
    assert("compute_fn"@.len() != "func"@.len());
    assert("compute_fn"@.len() != "call_extras_lit"@.len());
    assert("compute_fn"@.len() != "map_err"@.len());
    assert("compute_fn"@.len() != "row_to_sqlvalue"@.len());
    assert("extras"@[0] != "module"@[0]);
    assert("extras"@.len() != "func"@.len());
    assert("extras"@.len() != "call_extras_lit"@.len());
    assert("extras"@.len() != "map_err"@.len());
    assert("extras"@.len() != "row_to_sqlvalue"@.len());
    assert("module"@.len() != "func"@.len());
    assert("module"@.len() != "call_extras_lit"@.len());
    assert("module"@.len() != "map_err"@.len());
    assert("module"@.len() != "row_to_sqlvalue"@.len());
    assert("func"@.len() != "call_extras_lit"@.len());
    assert("func"@.len() != "map_err"@.len());
    assert("func"@.len() != "row_to_sqlvalue"@.len());
    assert("call_extras_lit"@.len() != "map_err"@.len());
    assert("call_extras_lit"@[0] != "row_to_sqlvalue"@[0]);
    assert("map_err"@.len() != "row_to_sqlvalue"@.len());
}

proof fn lemma_holes_name(name: Seq<char>)
    ensures
        ({
            let b = seq![("name"@, name)];
            &&& text::lookup_from(b, "name"@, 0) == name
        }),
{
    reveal_strlit("name");
    reveal_with_fuel(text::lookup_from, 2);

}

proof fn lemma_holes_id_name_num_args_flags(
    id: Seq<char>,
    name: Seq<char>,
    num_args: Seq<char>,
    flags: Seq<char>,
)
    ensures
        ({
            let b = seq![("id"@, id), ("name"@, name), ("num_args"@, num_args), ("flags"@, flags)];
            &&& text::lookup_from(b, "id"@, 0) == id
            &&& text::lookup_from(b, "name"@, 0) == name
            &&& text::lookup_from(b, "num_args"@, 0) == num_args
            &&& text::lookup_from(b, "flags"@, 0) == flags
        }),
{
    reveal_strlit("id");
    reveal_strlit("name");
    reveal_strlit("num_args");
    reveal_strlit("flags");
    reveal_with_fuel(text::lookup_from, 5);
    assert("id"@.len() != "name"@.len());
    assert("id"@.len() != "num_args"@.len());
    assert("id"@.len() != "flags"@.len());
    assert("name"@.len() != "num_args"@.len());
    assert("name"@.len() != "flags"@.len());
    assert("num_args"@.len() != "flags"@.len());
}

proof fn lemma_holes_id_name_num_args_is_window(
    id: Seq<char>,
    name: Seq<char>,
    num_args: Seq<char>,
    is_window: Seq<char>,
)
    ensures
        ({
            let b = seq![("id"@, id), ("name"@, name), ("num_args"@, num_args), ("is_window"@, is_window)];
            &&& text::lookup_from(b, "id"@, 0) == id
            &&& text::lookup_from(b, "name"@, 0) == name
            &&& text::lookup_from(b, "num_args"@, 0) == num_args
            &&& text::lookup_from(b, "is_window"@, 0) == is_window
        }),
{
    reveal_strlit("id");
    reveal_strlit("name");
    reveal_strlit("num_args");
    reveal_strlit("is_window");
    reveal_with_fuel(text::lookup_from, 5);
    assert("id"@.len() != "name"@.len());
    assert("id"@.len() != "num_args"@.len());
    assert("id"@.len() != "is_window"@.len());
    assert("name"@.len() != "num_args"@.len());
    assert("name"@.len() != "is_window"@.len());
    assert("num_args"@.len() != "is_window"@.len());
}

proof fn lemma_holes_id_name(id: Seq<char>, name: Seq<char>)
    ensures
        ({
            let b = seq![("id"@, id), ("name"@, name)];
            &&& text::lookup_from(b, "id"@, 0) == id
            &&& text::lookup_from(b, "name"@, 0) == name
        }),
{
    reveal_strlit("id");
    reveal_strlit("name");
    reveal_with_fuel(text::lookup_from, 3);
    assert("id"@.len() != "name"@.len());
}

proof fn lemma_extra_f64(j: Seq<char>, arg_index: Seq<char>, name: Seq<char>)
    ensures
        text::fill(t::EXTRA_F64@, seq![("j"@, j), ("arg_index"@, arg_index), ("name"@, name)])
            == "    let extra"@ + j + " = arg_f64(&rows[0], "@ + arg_index + ", \""@ + name
                + "\")?;\n"@,
{
    let s = t::EXTRA_F64@;
    let b = seq![("j"@, j), ("arg_index"@, arg_index), ("name"@, name)];
    reveal_strlit("    let extra{j} = arg_f64(&rows[0], {arg_index}, \"{name}\")?;\n");
    reveal_with_fuel(text::plain_to, 31);
    lemma_holes_j_arg_index_name(j, arg_index, name);
    reveal_strlit("    let extra");
    assert(s.subrange(0, 13) =~= "    let extra"@);
    text::lemma_fill_run(s, b, 0, "    let extra"@);
    reveal_strlit("j");
    assert(s.subrange(14, 15) =~= "j"@);
    text::lemma_fill_hole(s, b, 13, "j"@);
    reveal_strlit(" = arg_f64(&rows[0], ");
    assert(s.subrange(16, 37) =~= " = arg_f64(&rows[0], "@);
    text::lemma_fill_run(s, b, 16, " = arg_f64(&rows[0], "@);
    reveal_strlit("arg_index");
    assert(s.subrange(38, 47) =~= "arg_index"@);
    text::lemma_fill_hole(s, b, 37, "arg_index"@);
    reveal_strlit(", \"");
    assert(s.subrange(48, 51) =~= ", \""@);
    text::lemma_fill_run(s, b, 48, ", \""@);
    reveal_strlit("name");
    assert(s.subrange(52, 56) =~= "name"@);
    text::lemma_fill_hole(s, b, 51, "name"@);
    reveal_strlit("\")?;\n");
    assert(s.subrange(57, 62) =~= "\")?;\n"@);
    text::lemma_fill_run(s, b, 57, "\")?;\n"@);
    assert((
        "    let extra"@
            + (
                j
                    + (
                        " = arg_f64(&rows[0], "@
                            + (
                                arg_index
                                    + (", \""@ + (name + ("\")?;\n"@ + text::fill_from(s, b, 62))))
                            )
                    )
            )
    )
        =~= "    let extra"@ + j + " = arg_f64(&rows[0], "@ + arg_index + ", \""@ + name + "\")?;\n"@);
}

proof fn lemma_extra_s32(j: Seq<char>, arg_index: Seq<char>, name: Seq<char>)
    ensures
        text::fill(t::EXTRA_S32@, seq![("j"@, j), ("arg_index"@, arg_index), ("name"@, name)])
            == "    let extra"@ + j + " = arg_i64(&rows[0], "@ + arg_index + ", \""@ + name
                + "\")? as i32;\n"@,
{
    let s = t::EXTRA_S32@;
    let b = seq![("j"@, j), ("arg_index"@, arg_index), ("name"@, name)];
    reveal_strlit("    let extra{j} = arg_i64(&rows[0], {arg_index}, \"{name}\")? as i32;\n");
    reveal_with_fuel(text::plain_to, 31);
    lemma_holes_j_arg_index_name(j, arg_index, name);
    reveal_strlit("    let extra");
    assert(s.subrange(0, 13) =~= "    let extra"@);
    text::lemma_fill_run(s, b, 0, "    let extra"@);
    reveal_strlit("j");
    assert(s.subrange(14, 15) =~= "j"@);
    text::lemma_fill_hole(s, b, 13, "j"@);
    reveal_strlit(" = arg_i64(&rows[0], ");
    assert(s.subrange(16, 37) =~= " = arg_i64(&rows[0], "@);
    text::lemma_fill_run(s, b, 16, " = arg_i64(&rows[0], "@);
    reveal_strlit("arg_index");
    assert(s.subrange(38, 47) =~= "arg_index"@);
    text::lemma_fill_hole(s, b, 37, "arg_index"@);
    reveal_strlit(", \"");
    assert(s.subrange(48, 51) =~= ", \""@);
    text::lemma_fill_run(s, b, 48, ", \""@);
    reveal_strlit("name");
    assert(s.subrange(52, 56) =~= "name"@);
    text::lemma_fill_hole(s, b, 51, "name"@);
    reveal_strlit("\")? as i32;\n");
    assert(s.subrange(57, 69) =~= "\")? as i32;\n"@);
    text::lemma_fill_run(s, b, 57, "\")? as i32;\n"@);
    assert((
        "    let extra"@
            + (
                j
                    + (
                        " = arg_i64(&rows[0], "@
                            + (
                                arg_index
                                    + (
                                        ", \""@
                                            + (
                                                name
                                                    + ("\")? as i32;\n"@ + text::fill_from(s, b, 69))
                                            )
                                    )
                            )
                    )
            )
    )
        =~= "    let extra"@ + j + " = arg_i64(&rows[0], "@ + arg_index + ", \""@ + name
            + "\")? as i32;\n"@);
}

proof fn lemma_extra_s64(j: Seq<char>, arg_index: Seq<char>, name: Seq<char>)
    ensures
        text::fill(t::EXTRA_S64@, seq![("j"@, j), ("arg_index"@, arg_index), ("name"@, name)])
            == "    let extra"@ + j + " = arg_i64(&rows[0], "@ + arg_index + ", \""@ + name
                + "\")?;\n"@,
{
    let s = t::EXTRA_S64@;
    let b = seq![("j"@, j), ("arg_index"@, arg_index), ("name"@, name)];
    reveal_strlit("    let extra{j} = arg_i64(&rows[0], {arg_index}, \"{name}\")?;\n");
    reveal_with_fuel(text::plain_to, 31);
    lemma_holes_j_arg_index_name(j, arg_index, name);
    reveal_strlit("    let extra");
    assert(s.subrange(0, 13) =~= "    let extra"@);
    text::lemma_fill_run(s, b, 0, "    let extra"@);
    reveal_strlit("j");
    assert(s.subrange(14, 15) =~= "j"@);
    text::lemma_fill_hole(s, b, 13, "j"@);
    reveal_strlit(" = arg_i64(&rows[0], ");
    assert(s.subrange(16, 37) =~= " = arg_i64(&rows[0], "@);
    text::lemma_fill_run(s, b, 16, " = arg_i64(&rows[0], "@);
    reveal_strlit("arg_index");
    assert(s.subrange(38, 47) =~= "arg_index"@);
    text::lemma_fill_hole(s, b, 37, "arg_index"@);
    reveal_strlit(", \"");
    assert(s.subrange(48, 51) =~= ", \""@);
    text::lemma_fill_run(s, b, 48, ", \""@);
    reveal_strlit("name");
    assert(s.subrange(52, 56) =~= "name"@);
    text::lemma_fill_hole(s, b, 51, "name"@);
    reveal_strlit("\")?;\n");
    assert(s.subrange(57, 62) =~= "\")?;\n"@);
    text::lemma_fill_run(s, b, 57, "\")?;\n"@);
    assert((
        "    let extra"@
            + (
                j
                    + (
                        " = arg_i64(&rows[0], "@
                            + (
                                arg_index
                                    + (", \""@ + (name + ("\")?;\n"@ + text::fill_from(s, b, 62))))
                            )
                    )
            )
    )
        =~= "    let extra"@ + j + " = arg_i64(&rows[0], "@ + arg_index + ", \""@ + name + "\")?;\n"@);
}

proof fn lemma_extra_u32(j: Seq<char>, arg_index: Seq<char>, name: Seq<char>)
    ensures
        text::fill(t::EXTRA_U32@, seq![("j"@, j), ("arg_index"@, arg_index), ("name"@, name)])
            == "    let extra"@ + j + " = arg_i64(&rows[0], "@ + arg_index + ", \""@ + name
                + "\")? as u32;\n"@,
{
    let s = t::EXTRA_U32@;
    let b = seq![("j"@, j), ("arg_index"@, arg_index), ("name"@, name)];
    reveal_strlit("    let extra{j} = arg_i64(&rows[0], {arg_index}, \"{name}\")? as u32;\n");
    reveal_with_fuel(text::plain_to, 31);
    lemma_holes_j_arg_index_name(j, arg_index, name);
    reveal_strlit("    let extra");
    assert(s.subrange(0, 13) =~= "    let extra"@);
    text::lemma_fill_run(s, b, 0, "    let extra"@);
    reveal_strlit("j");
    assert(s.subrange(14, 15) =~= "j"@);
    text::lemma_fill_hole(s, b, 13, "j"@);
    reveal_strlit(" = arg_i64(&rows[0], ");
    assert(s.subrange(16, 37) =~= " = arg_i64(&rows[0], "@);
    text::lemma_fill_run(s, b, 16, " = arg_i64(&rows[0], "@);
    reveal_strlit("arg_index");
    assert(s.subrange(38, 47) =~= "arg_index"@);
    text::lemma_fill_hole(s, b, 37, "arg_index"@);
    reveal_strlit(", \"");
    assert(s.subrange(48, 51) =~= ", \""@);
    text::lemma_fill_run(s, b, 48, ", \""@);
    reveal_strlit("name");
    assert(s.subrange(52, 56) =~= "name"@);
    text::lemma_fill_hole(s, b, 51, "name"@);
    reveal_strlit("\")? as u32;\n");
    assert(s.subrange(57, 69) =~= "\")? as u32;\n"@);
    text::lemma_fill_run(s, b, 57, "\")? as u32;\n"@);
    assert((
        "    let extra"@
            + (
                j
                    + (
                        " = arg_i64(&rows[0], "@
                            + (
                                arg_index
                                    + (
                                        ", \""@
                                            + (
                                                name
                                                    + ("\")? as u32;\n"@ + text::fill_from(s, b, 69))
                                            )
                                    )
                            )
                    )
            )
    )
        =~= "    let extra"@ + j + " = arg_i64(&rows[0], "@ + arg_index + ", \""@ + name
            + "\")? as u32;\n"@);
}

proof fn lemma_extra_u64(j: Seq<char>, arg_index: Seq<char>, name: Seq<char>)
    ensures
        text::fill(t::EXTRA_U64@, seq![("j"@, j), ("arg_index"@, arg_index), ("name"@, name)])
            == "    let extra"@ + j + " = arg_i64(&rows[0], "@ + arg_index + ", \""@ + name
                + "\")? as u64;\n"@,
{
    let s = t::EXTRA_U64@;
    let b = seq![("j"@, j), ("arg_index"@, arg_index), ("name"@, name)];
    reveal_strlit("    let extra{j} = arg_i64(&rows[0], {arg_index}, \"{name}\")? as u64;\n");
    reveal_with_fuel(text::plain_to, 31);
    lemma_holes_j_arg_index_name(j, arg_index, name);
    reveal_strlit("    let extra");
    assert(s.subrange(0, 13) =~= "    let extra"@);
    text::lemma_fill_run(s, b, 0, "    let extra"@);
    reveal_strlit("j");
    assert(s.subrange(14, 15) =~= "j"@);
    text::lemma_fill_hole(s, b, 13, "j"@);
    reveal_strlit(" = arg_i64(&rows[0], ");
    assert(s.subrange(16, 37) =~= " = arg_i64(&rows[0], "@);
    text::lemma_fill_run(s, b, 16, " = arg_i64(&rows[0], "@);
    reveal_strlit("arg_index");
    assert(s.subrange(38, 47) =~= "arg_index"@);
    text::lemma_fill_hole(s, b, 37, "arg_index"@);
    reveal_strlit(", \"");
    assert(s.subrange(48, 51) =~= ", \""@);
    text::lemma_fill_run(s, b, 48, ", \""@);
    reveal_strlit("name");
    assert(s.subrange(52, 56) =~= "name"@);
    text::lemma_fill_hole(s, b, 51, "name"@);
    reveal_strlit("\")? as u64;\n");
    assert(s.subrange(57, 69) =~= "\")? as u64;\n"@);
    text::lemma_fill_run(s, b, 57, "\")? as u64;\n"@);
    assert((
        "    let extra"@
            + (
                j
                    + (
                        " = arg_i64(&rows[0], "@
                            + (
                                arg_index
                                    + (
                                        ", \""@
                                            + (
                                                name
                                                    + ("\")? as u64;\n"@ + text::fill_from(s, b, 69))
                                            )
                                    )
                            )
                    )
            )
    )
        =~= "    let extra"@ + j + " = arg_i64(&rows[0], "@ + arg_index + ", \""@ + name
            + "\")? as u64;\n"@);
}

proof fn lemma_extra_bool(j: Seq<char>, arg_index: Seq<char>, name: Seq<char>)
    ensures
        text::fill(t::EXTRA_BOOL@, seq![("j"@, j), ("arg_index"@, arg_index), ("name"@, name)])
            == "    let extra"@ + j + " = arg_i64(&rows[0], "@ + arg_index + ", \""@ + name
                + "\")? != 0;\n"@,
{
    let s = t::EXTRA_BOOL@;
    let b = seq![("j"@, j), ("arg_index"@, arg_index), ("name"@, name)];
    reveal_strlit("    let extra{j} = arg_i64(&rows[0], {arg_index}, \"{name}\")? != 0;\n");
    reveal_with_fuel(text::plain_to, 31);
    lemma_holes_j_arg_index_name(j, arg_index, name);
    reveal_strlit("    let extra");
    assert(s.subrange(0, 13) =~= "    let extra"@);
    text::lemma_fill_run(s, b, 0, "    let extra"@);
    reveal_strlit("j");
    assert(s.subrange(14, 15) =~= "j"@);
    text::lemma_fill_hole(s, b, 13, "j"@);
    reveal_strlit(" = arg_i64(&rows[0], ");
    assert(s.subrange(16, 37) =~= " = arg_i64(&rows[0], "@);
    text::lemma_fill_run(s, b, 16, " = arg_i64(&rows[0], "@);
    reveal_strlit("arg_index");
    assert(s.subrange(38, 47) =~= "arg_index"@);
    text::lemma_fill_hole(s, b, 37, "arg_index"@);
    reveal_strlit(", \"");
    assert(s.subrange(48, 51) =~= ", \""@);
    text::lemma_fill_run(s, b, 48, ", \""@);
    reveal_strlit("name");
    assert(s.subrange(52, 56) =~= "name"@);
    text::lemma_fill_hole(s, b, 51, "name"@);
    reveal_strlit("\")? != 0;\n");
    assert(s.subrange(57, 67) =~= "\")? != 0;\n"@);
    text::lemma_fill_run(s, b, 57, "\")? != 0;\n"@);
    assert((
        "    let extra"@
            + (
                j
                    + (
                        " = arg_i64(&rows[0], "@
                            + (
                                arg_index
                                    + (
                                        ", \""@
                                            + (name + ("\")? != 0;\n"@ + text::fill_from(s, b, 67)))
                                    )
                            )
                    )
            )
    )
        =~= "    let extra"@ + j + " = arg_i64(&rows[0], "@ + arg_index + ", \""@ + name
            + "\")? != 0;\n"@);
}

proof fn lemma_extra_text(j: Seq<char>, arg_index: Seq<char>, name: Seq<char>)
    ensures
        text::fill(t::EXTRA_TEXT@, seq![("j"@, j), ("arg_index"@, arg_index), ("name"@, name)])
            == "    let extra"@ + j + " = arg_text(&rows[0], "@ + arg_index + ", \""@ + name
                + "\")?.to_string();\n"@,
{
    let s = t::EXTRA_TEXT@;
    let b = seq![("j"@, j), ("arg_index"@, arg_index), ("name"@, name)];
    reveal_strlit("    let extra{j} = arg_text(&rows[0], {arg_index}, \"{name}\")?.to_string();\n");
    reveal_with_fuel(text::plain_to, 31);
    lemma_holes_j_arg_index_name(j, arg_index, name);
    reveal_strlit("    let extra");
    assert(s.subrange(0, 13) =~= "    let extra"@);
    text::lemma_fill_run(s, b, 0, "    let extra"@);
    reveal_strlit("j");
    assert(s.subrange(14, 15) =~= "j"@);
    text::lemma_fill_hole(s, b, 13, "j"@);
    reveal_strlit(" = arg_text(&rows[0], ");
    assert(s.subrange(16, 38) =~= " = arg_text(&rows[0], "@);
    text::lemma_fill_run(s, b, 16, " = arg_text(&rows[0], "@);
    reveal_strlit("arg_index");
    assert(s.subrange(39, 48) =~= "arg_index"@);
    text::lemma_fill_hole(s, b, 38, "arg_index"@);
    reveal_strlit(", \"");
    assert(s.subrange(49, 52) =~= ", \""@);
    text::lemma_fill_run(s, b, 49, ", \""@);
    reveal_strlit("name");
    assert(s.subrange(53, 57) =~= "name"@);
    text::lemma_fill_hole(s, b, 52, "name"@);
    reveal_strlit("\")?.to_string();\n");
    assert(s.subrange(58, 75) =~= "\")?.to_string();\n"@);
    text::lemma_fill_run(s, b, 58, "\")?.to_string();\n"@);
    assert((
        "    let extra"@
            + (
                j
                    + (
                        " = arg_text(&rows[0], "@
                            + (
                                arg_index
                                    + (
                                        ", \""@
                                            + (
                                                name
                                                    + (
                                                        "\")?.to_string();\n"@
                                                            + text::fill_from(s, b, 75)
                                                    )
                                            )
                                    )
                            )
                    )
            )
    )
        =~= "    let extra"@ + j + " = arg_text(&rows[0], "@ + arg_index + ", \""@ + name
            + "\")?.to_string();\n"@);
}

proof fn lemma_extra_blob(j: Seq<char>, arg_index: Seq<char>, name: Seq<char>)
    ensures
        text::fill(t::EXTRA_BLOB@, seq![("j"@, j), ("arg_index"@, arg_index), ("name"@, name)])
            == "    let extra"@ + j + " = arg_blob(&rows[0], "@ + arg_index + ", \""@ + name
                + "\")?.to_vec();\n"@,
{
    let s = t::EXTRA_BLOB@;
    let b = seq![("j"@, j), ("arg_index"@, arg_index), ("name"@, name)];
    reveal_strlit("    let extra{j} = arg_blob(&rows[0], {arg_index}, \"{name}\")?.to_vec();\n");
    reveal_with_fuel(text::plain_to, 31);
    lemma_holes_j_arg_index_name(j, arg_index, name);
    reveal_strlit("    let extra");
    assert(s.subrange(0, 13) =~= "    let extra"@);
    text::lemma_fill_run(s, b, 0, "    let extra"@);
    reveal_strlit("j");
    assert(s.subrange(14, 15) =~= "j"@);
    text::lemma_fill_hole(s, b, 13, "j"@);
    reveal_strlit(" = arg_blob(&rows[0], ");
    assert(s.subrange(16, 38) =~= " = arg_blob(&rows[0], "@);
    text::lemma_fill_run(s, b, 16, " = arg_blob(&rows[0], "@);
    reveal_strlit("arg_index");
    assert(s.subrange(39, 48) =~= "arg_index"@);
    text::lemma_fill_hole(s, b, 38, "arg_index"@);
    reveal_strlit(", \"");
    assert(s.subrange(49, 52) =~= ", \""@);
    text::lemma_fill_run(s, b, 49, ", \""@);
    reveal_strlit("name");
    assert(s.subrange(53, 57) =~= "name"@);
    text::lemma_fill_hole(s, b, 52, "name"@);
    reveal_strlit("\")?.to_vec();\n");
    assert(s.subrange(58, 72) =~= "\")?.to_vec();\n"@);
    text::lemma_fill_run(s, b, 58, "\")?.to_vec();\n"@);
    assert((
        "    let extra"@
            + (
                j
                    + (
                        " = arg_blob(&rows[0], "@
                            + (
                                arg_index
                                    + (
                                        ", \""@
                                            + (
                                                name
                                                    + (
                                                        "\")?.to_vec();\n"@
                                                            + text::fill_from(s, b, 72)
                                                    )
                                            )
                                    )
                            )
                    )
            )
    )
        =~= "    let extra"@ + j + " = arg_blob(&rows[0], "@ + arg_index + ", \""@ + name
            + "\")?.to_vec();\n"@);
}

#[verifier::rlimit(40)]
proof fn lemma_compute_window(
    name: Seq<char>,
    id: Seq<char>,
    returns_dbg: Seq<char>,
    compute_fn: Seq<char>,
    extras: Seq<char>,
    module: Seq<char>,
    func: Seq<char>,
    call_extras_lit: Seq<char>,
    map_err: Seq<char>,
    row_to_sqlvalue: Seq<char>,
)
    ensures
        words::has_piece(
            text::fill(
                t::COMPUTE_WINDOW@,
                seq![("name"@, name), ("id"@, id), ("returns_dbg"@, returns_dbg), ("compute_fn"@, compute_fn), ("extras"@, extras), ("module"@, module), ("func"@, func), ("call_extras_lit"@, call_extras_lit), ("map_err"@, map_err), ("row_to_sqlvalue"@, row_to_sqlvalue)],
            ),
            "fn "@ + compute_fn + "(rows: &[Vec<SqlValue>]) -> Result<Vec<SqlValue>, String> "@,
        ),
        words::has_piece(
            text::fill(
                t::COMPUTE_WINDOW@,
                seq![("name"@, name), ("id"@, id), ("returns_dbg"@, returns_dbg), ("compute_fn"@, compute_fn), ("extras"@, extras), ("module"@, module), ("func"@, func), ("call_extras_lit"@, call_extras_lit), ("map_err"@, map_err), ("row_to_sqlvalue"@, row_to_sqlvalue)],
            ),
            "let bytes = arg_blob(row, 0, \""@ + name + "\")?;"@,
        ),
        words::has_piece(
            text::fill(
                t::COMPUTE_WINDOW@,
                seq![("name"@, name), ("id"@, id), ("returns_dbg"@, returns_dbg), ("compute_fn"@, compute_fn), ("extras"@, extras), ("module"@, module), ("func"@, func), ("call_extras_lit"@, call_extras_lit), ("map_err"@, map_err), ("row_to_sqlvalue"@, row_to_sqlvalue)],
            ),
            "Geometry::from_wkb(bytes)"@,
        ),
        words::has_piece(
            text::fill(
                t::COMPUTE_WINDOW@,
                seq![("name"@, name), ("id"@, id), ("returns_dbg"@, returns_dbg), ("compute_fn"@, compute_fn), ("extras"@, extras), ("module"@, module), ("func"@, func), ("call_extras_lit"@, call_extras_lit), ("map_err"@, map_err), ("row_to_sqlvalue"@, row_to_sqlvalue)],
            ),
            extras,
        ),
        words::has_piece(
            text::fill(
                t::COMPUTE_WINDOW@,
                seq![("name"@, name), ("id"@, id), ("returns_dbg"@, returns_dbg), ("compute_fn"@, compute_fn), ("extras"@, extras), ("module"@, module), ("func"@, func), ("call_extras_lit"@, call_extras_lit), ("map_err"@, map_err), ("row_to_sqlvalue"@, row_to_sqlvalue)],
            ),
            "let labels = "@ + module + "::"@ + func + "(&geom_refs"@ + call_extras_lit + ")"@
                + map_err + ";"@,
        ),
        words::has_piece(
            text::fill(
                t::COMPUTE_WINDOW@,
                seq![("name"@, name), ("id"@, id), ("returns_dbg"@, returns_dbg), ("compute_fn"@, compute_fn), ("extras"@, extras), ("module"@, module), ("func"@, func), ("call_extras_lit"@, call_extras_lit), ("map_err"@, map_err), ("row_to_sqlvalue"@, row_to_sqlvalue)],
            ),
            row_to_sqlvalue,
        ),
{
    let s = t::COMPUTE_WINDOW@;
    reveal_strlit(r#"/// #616 Phase 1: per-partition compute for `{name}`
/// (func_id {id}). The upstream returns the full per-row
/// result list in input order; we marshal each into the
/// classified SqlValue shape ({returns_dbg}). Called once
/// per partition (first value() invocation); subsequent
/// value() calls read from cache.
fn {compute_fn}(rows: &[Vec<SqlValue>]) -> Result<Vec<SqlValue>, String> {{
    if rows.is_empty() {{
        return Ok(Vec::new());
    }}
    let mut geoms: Vec<Geometry> = Vec::with_capacity(rows.len());
    for row in rows {{
        let bytes = arg_blob(row, 0, "{name}")?;
        geoms.push(
            Geometry::from_wkb(bytes)
                .map_err(|e| format!("{name}: row decode: {{}}", postgis_err_string(e)))?,
        );
    }}
{extras}    let geom_refs: Vec<&Geometry> = geoms.iter().collect();
    let labels = {module}::{func}(&geom_refs{call_extras_lit}){map_err};
{row_to_sqlvalue}}}

"#);
    reveal_with_fuel(text::plain_to, 31);
    let b = seq![("name"@, name), ("id"@, id), ("returns_dbg"@, returns_dbg), ("compute_fn"@, compute_fn), ("extras"@, extras), ("module"@, module), ("func"@, func), ("call_extras_lit"@, call_extras_lit), ("map_err"@, map_err), ("row_to_sqlvalue"@, row_to_sqlvalue)];
    lemma_holes_name_id_returns_dbg_compute_fn_extras_module_func_call_extras_lit_map_err_row_to_sqlvalue(
        name,
        id,
        returns_dbg,
        compute_fn,
        extras,
        module,
        func,
        call_extras_lit,
        map_err,
        row_to_sqlvalue,
    );
    assert(words::has_piece(
        text::fill(t::COMPUTE_WINDOW@, b),
        "fn "@ + compute_fn + "(rows: &[Vec<SqlValue>]) -> Result<Vec<SqlValue>, String> "@,
    )) by {
        let before = text::lemma_fill_reaches(s, b, 212);
        reveal_strlit("). Called once\n/// per partiti");
        assert(s.subrange(212, 242) =~= "). Called once\n/// per partiti"@);
        text::lemma_fill_run(s, b, 212, "). Called once\n/// per partiti"@);
        reveal_strlit("on (first value() invocation);");
        assert(s.subrange(242, 272) =~= "on (first value() invocation);"@);
        text::lemma_fill_run(s, b, 242, "on (first value() invocation);"@);
        reveal_strlit(" subsequent\n/// value() calls ");
        assert(s.subrange(272, 302) =~= " subsequent\n/// value() calls "@);
        text::lemma_fill_run(s, b, 272, " subsequent\n/// value() calls "@);
        reveal_strlit("read from cache.\n");
        assert(s.subrange(302, 319) =~= "read from cache.\n"@);
        text::lemma_fill_run(s, b, 302, "read from cache.\n"@);
        reveal_strlit("fn ");
        assert(s.subrange(319, 322) =~= "fn "@);
        text::lemma_fill_run(s, b, 319, "fn "@);
        reveal_strlit("compute_fn");
        assert(s.subrange(323, 333) =~= "compute_fn"@);
        text::lemma_fill_hole(s, b, 322, "compute_fn"@);
        reveal_strlit("(rows: &[Vec<SqlValue>]) -> Re");
        assert(s.subrange(334, 364) =~= "(rows: &[Vec<SqlValue>]) -> Re"@);
        text::lemma_fill_run(s, b, 334, "(rows: &[Vec<SqlValue>]) -> Re"@);
        reveal_strlit("sult<Vec<SqlValue>, String> ");
        assert(s.subrange(364, 392) =~= "sult<Vec<SqlValue>, String> "@);
        text::lemma_fill_run(s, b, 364, "sult<Vec<SqlValue>, String> "@);
        let rest = text::fill_from(s, b, 392);
        let part = "fn "@ + compute_fn + "(rows: &[Vec<SqlValue>]) -> Result<Vec<SqlValue>, String> "@;
        reveal_strlit("(rows: &[Vec<SqlValue>]) -> Result<Vec<SqlValue>, String> ");
        assert((
            "fn "@
                + (
                    compute_fn
                        + (
                            "(rows: &[Vec<SqlValue>]) -> Re"@
                                + ("sult<Vec<SqlValue>, String> "@ + rest)
                        )
                )
        )
            =~= part + rest);
        assert(before
            + (
                "). Called once\n/// per partiti"@
                    + (
                        "on (first value() invocation);"@
                            + (
                                " subsequent\n/// value() calls "@
                                    + ("read from cache.\n"@ + (part + rest))
                            )
                    )
            )
            =~= (
                before + "). Called once\n/// per partiti"@ + "on (first value() invocation);"@
                    + " subsequent\n/// value() calls "@ + "read from cache.\n"@
            ) + (part + rest));
        words::lemma_piece_between(
            before + "). Called once\n/// per partiti"@ + "on (first value() invocation);"@
                + " subsequent\n/// value() calls "@ + "read from cache.\n"@,
            part,
            rest,
        );
    }
    assert(words::has_piece(
        text::fill(t::COMPUTE_WINDOW@, b),
        "let bytes = arg_blob(row, 0, \""@ + name + "\")?;"@,
    )) by {
        let before = text::lemma_fill_reaches(s, b, 458);
        reveal_strlit("\n    let mut geoms: Vec<Geomet");
        assert(s.subrange(458, 488) =~= "\n    let mut geoms: Vec<Geomet"@);
        text::lemma_fill_run(s, b, 458, "\n    let mut geoms: Vec<Geomet"@);
        reveal_strlit("ry> = Vec::with_capacity(rows.");
        assert(s.subrange(488, 518) =~= "ry> = Vec::with_capacity(rows."@);
        text::lemma_fill_run(s, b, 488, "ry> = Vec::with_capacity(rows."@);
        reveal_strlit("len());\n    for row in rows ");
        assert(s.subrange(518, 546) =~= "len());\n    for row in rows "@);
        text::lemma_fill_run(s, b, 518, "len());\n    for row in rows "@);
        assert(text::fill_from(s, b, 546) == seq!['{'] + text::fill_from(s, b, 548));
        reveal_strlit("\n        ");
        assert(s.subrange(548, 557) =~= "\n        "@);
        text::lemma_fill_run(s, b, 548, "\n        "@);
        reveal_strlit("let bytes = arg_blob(row, 0, \"");
        assert(s.subrange(557, 587) =~= "let bytes = arg_blob(row, 0, \""@);
        text::lemma_fill_run(s, b, 557, "let bytes = arg_blob(row, 0, \""@);
        reveal_strlit("name");
        assert(s.subrange(588, 592) =~= "name"@);
        text::lemma_fill_hole(s, b, 587, "name"@);
        reveal_strlit("\")?;");
        assert(s.subrange(593, 597) =~= "\")?;"@);
        text::lemma_fill_run(s, b, 593, "\")?;"@);
        let rest = text::fill_from(s, b, 597);
        let part = "let bytes = arg_blob(row, 0, \""@ + name + "\")?;"@;
        assert(("let bytes = arg_blob(row, 0, \""@ + (name + ("\")?;"@ + rest))) =~= part + rest);
        assert(before
            + (
                "\n    let mut geoms: Vec<Geomet"@
                    + (
                        "ry> = Vec::with_capacity(rows."@
                            + (
                                "len());\n    for row in rows "@
                                    + (seq!['{'] + ("\n        "@ + (part + rest)))
                            )
                    )
            )
            =~= (
                before + "\n    let mut geoms: Vec<Geomet"@ + "ry> = Vec::with_capacity(rows."@
                    + "len());\n    for row in rows "@ + seq!['{'] + "\n        "@
            ) + (part + rest));
        words::lemma_piece_between(
            before + "\n    let mut geoms: Vec<Geomet"@ + "ry> = Vec::with_capacity(rows."@
                + "len());\n    for row in rows "@ + seq!['{'] + "\n        "@,
            part,
            rest,
        );
    }
    assert(words::has_piece(text::fill(t::COMPUTE_WINDOW@, b), "Geometry::from_wkb(bytes)"@)) by {
        let before = text::lemma_fill_reaches(s, b, 593);
        reveal_strlit("\")?;\n        geoms.push(\n     ");
        assert(s.subrange(593, 623) =~= "\")?;\n        geoms.push(\n     "@);
        text::lemma_fill_run(s, b, 593, "\")?;\n        geoms.push(\n     "@);
        reveal_strlit("       ");
        assert(s.subrange(623, 630) =~= "       "@);
        text::lemma_fill_run(s, b, 623, "       "@);
        reveal_strlit("Geometry::from_wkb(bytes)");
        assert(s.subrange(630, 655) =~= "Geometry::from_wkb(bytes)"@);
        text::lemma_fill_run(s, b, 630, "Geometry::from_wkb(bytes)"@);
        let rest = text::fill_from(s, b, 655);
        let part = "Geometry::from_wkb(bytes)"@;
        assert(before + ("\")?;\n        geoms.push(\n     "@ + ("       "@ + (part + rest)))
            =~= (before + "\")?;\n        geoms.push(\n     "@ + "       "@) + (part + rest));
        words::lemma_piece_between(
            before + "\")?;\n        geoms.push(\n     "@ + "       "@,
            part,
            rest,
        );
    }
    assert(words::has_piece(text::fill(t::COMPUTE_WINDOW@, b), extras)) by {
        let before = text::lemma_fill_reaches(s, b, 764);
        reveal_strlit("\n");
        assert(s.subrange(764, 765) =~= "\n"@);
        text::lemma_fill_run(s, b, 764, "\n"@);
        reveal_strlit("extras");
        assert(s.subrange(766, 772) =~= "extras"@);
        text::lemma_fill_hole(s, b, 765, "extras"@);
        let rest = text::fill_from(s, b, 773);
        let part = extras;
        assert(before + ("\n"@ + (part + rest)) =~= (before + "\n"@) + (part + rest));
        words::lemma_piece_between(before + "\n"@, part, rest);
    }
    assert(words::has_piece(
        text::fill(t::COMPUTE_WINDOW@, b),
        "let labels = "@ + module + "::"@ + func + "(&geom_refs"@ + call_extras_lit + ")"@
            + map_err + ";"@,
    )) by {
        let before = text::lemma_fill_reaches(s, b, 773);
        reveal_strlit("    let geom_refs: Vec<&Geomet");
        assert(s.subrange(773, 803) =~= "    let geom_refs: Vec<&Geomet"@);
        text::lemma_fill_run(s, b, 773, "    let geom_refs: Vec<&Geomet"@);
        reveal_strlit("ry> = geoms.iter().collect();\n");
        assert(s.subrange(803, 833) =~= "ry> = geoms.iter().collect();\n"@);
        text::lemma_fill_run(s, b, 803, "ry> = geoms.iter().collect();\n"@);
        reveal_strlit("    ");
        assert(s.subrange(833, 837) =~= "    "@);
        text::lemma_fill_run(s, b, 833, "    "@);
        reveal_strlit("let labels = ");
        assert(s.subrange(837, 850) =~= "let labels = "@);
        text::lemma_fill_run(s, b, 837, "let labels = "@);
        reveal_strlit("module");
        assert(s.subrange(851, 857) =~= "module"@);
        text::lemma_fill_hole(s, b, 850, "module"@);
        reveal_strlit("::");
        assert(s.subrange(858, 860) =~= "::"@);
        text::lemma_fill_run(s, b, 858, "::"@);
        reveal_strlit("func");
        assert(s.subrange(861, 865) =~= "func"@);
        text::lemma_fill_hole(s, b, 860, "func"@);
        reveal_strlit("(&geom_refs");
        assert(s.subrange(866, 877) =~= "(&geom_refs"@);
        text::lemma_fill_run(s, b, 866, "(&geom_refs"@);
        reveal_strlit("call_extras_lit");
        assert(s.subrange(878, 893) =~= "call_extras_lit"@);
        text::lemma_fill_hole(s, b, 877, "call_extras_lit"@);
        reveal_strlit(")");
        assert(s.subrange(894, 895) =~= ")"@);
        text::lemma_fill_run(s, b, 894, ")"@);
        reveal_strlit("map_err");
        assert(s.subrange(896, 903) =~= "map_err"@);
        text::lemma_fill_hole(s, b, 895, "map_err"@);
        reveal_strlit(";");
        assert(s.subrange(904, 905) =~= ";"@);
        text::lemma_fill_run(s, b, 904, ";"@);
        let rest = text::fill_from(s, b, 905);
        let part = "let labels = "@ + module + "::"@ + func + "(&geom_refs"@ + call_extras_lit + ")"@
            + map_err + ";"@;
        assert((
            "let labels = "@
                + (
                    module
                        + (
                            "::"@
                                + (
                                    func
                                        + (
                                            "(&geom_refs"@
                                                + (
                                                    call_extras_lit
                                                        + (")"@ + (map_err + (";"@ + rest)))
                                                )
                                        )
                                )
                        )
                )
        )
            =~= part + rest);
        assert(before
            + (
                "    let geom_refs: Vec<&Geomet"@
                    + ("ry> = geoms.iter().collect();\n"@ + ("    "@ + (part + rest)))
            )
            =~= (
                before + "    let geom_refs: Vec<&Geomet"@ + "ry> = geoms.iter().collect();\n"@
                    + "    "@
            ) + (part + rest));
        words::lemma_piece_between(
            before + "    let geom_refs: Vec<&Geomet"@ + "ry> = geoms.iter().collect();\n"@
                + "    "@,
            part,
            rest,
        );
    }
    assert(words::has_piece(text::fill(t::COMPUTE_WINDOW@, b), row_to_sqlvalue)) by {
        let before = text::lemma_fill_reaches(s, b, 904);
        reveal_strlit(";\n");
        assert(s.subrange(904, 906) =~= ";\n"@);
        text::lemma_fill_run(s, b, 904, ";\n"@);
        reveal_strlit("row_to_sqlvalue");
        assert(s.subrange(907, 922) =~= "row_to_sqlvalue"@);
        text::lemma_fill_hole(s, b, 906, "row_to_sqlvalue"@);
        let rest = text::fill_from(s, b, 923);
        let part = row_to_sqlvalue;
        assert(before + (";\n"@ + (part + rest)) =~= (before + ";\n"@) + (part + rest));
        words::lemma_piece_between(before + ";\n"@, part, rest);
    }
}

proof fn lemma_map_err(name: Seq<char>)
    ensures
        text::fill(t::MAP_ERR@, seq![("name"@, name)])
            == ".map_err(|e| format!(\""@ + name + ": {}\", postgis_err_string(e)))?"@,
{
    let s = t::MAP_ERR@;
    let b = seq![("name"@, name)];
    reveal_strlit(".map_err(|e| format!(\"{name}: {{}}\", postgis_err_string(e)))?");
    reveal_with_fuel(text::plain_to, 31);
    lemma_holes_name(name);
    reveal_strlit(".map_err(|e| format!(\"");
    assert(s.subrange(0, 22) =~= ".map_err(|e| format!(\""@);
    text::lemma_fill_run(s, b, 0, ".map_err(|e| format!(\""@);
    reveal_strlit("name");
    assert(s.subrange(23, 27) =~= "name"@);
    text::lemma_fill_hole(s, b, 22, "name"@);
    reveal_strlit(": ");
    assert(s.subrange(28, 30) =~= ": "@);
    text::lemma_fill_run(s, b, 28, ": "@);
    assert(text::fill_from(s, b, 30) == seq!['{'] + text::fill_from(s, b, 32));
    assert(text::fill_from(s, b, 32) == seq!['}'] + text::fill_from(s, b, 34));
    reveal_strlit("\", postgis_err_string(e)))?");
    assert(s.subrange(34, 61) =~= "\", postgis_err_string(e)))?"@);
    text::lemma_fill_run(s, b, 34, "\", postgis_err_string(e)))?"@);
    reveal_strlit(": {}\", postgis_err_string(e)))?");
    assert((
        ".map_err(|e| format!(\""@
            + (
                name
                    + (
                        ": "@
                            + (
                                seq!['{']
                                    + (
                                        seq!['}']
                                            + (
                                                "\", postgis_err_string(e)))?"@
                                                    + text::fill_from(s, b, 61)
                                            )
                                    )
                            )
                    )
            )
    )
        =~= ".map_err(|e| format!(\""@ + name + ": {}\", postgis_err_string(e)))?"@);
}

proof fn lemma_scalar_entry(id: Seq<char>, name: Seq<char>, num_args: Seq<char>, flags: Seq<char>)
    ensures
        text::fill(
            t::SCALAR_ENTRY@,
            seq![("id"@, id), ("name"@, name), ("num_args"@, num_args), ("flags"@, flags)],
        )
            == "            ScalarFunctionSpec { id: "@ + id + ", name: \""@ + name
                + "\".into(), num_args: "@ + num_args + ", func_flags: "@ + flags + " },\n"@,
{
    let s = t::SCALAR_ENTRY@;
    let b = seq![("id"@, id), ("name"@, name), ("num_args"@, num_args), ("flags"@, flags)];
    reveal_strlit("            ScalarFunctionSpec {{ id: {id}, name: \"{name}\".into(), num_args: {num_args}, func_flags: {flags} }},\n");
    reveal_with_fuel(text::plain_to, 31);
    lemma_holes_id_name_num_args_flags(id, name, num_args, flags);
    reveal_strlit("            ScalarFunctionSpec");
    assert(s.subrange(0, 30) =~= "            ScalarFunctionSpec"@);
    text::lemma_fill_run(s, b, 0, "            ScalarFunctionSpec"@);
    reveal_strlit(" ");
    assert(s.subrange(30, 31) =~= " "@);
    text::lemma_fill_run(s, b, 30, " "@);
    assert(text::fill_from(s, b, 31) == seq!['{'] + text::fill_from(s, b, 33));
    reveal_strlit(" id: ");
    assert(s.subrange(33, 38) =~= " id: "@);
    text::lemma_fill_run(s, b, 33, " id: "@);
    reveal_strlit("id");
    assert(s.subrange(39, 41) =~= "id"@);
    text::lemma_fill_hole(s, b, 38, "id"@);
    reveal_strlit(", name: \"");
    assert(s.subrange(42, 51) =~= ", name: \""@);
    text::lemma_fill_run(s, b, 42, ", name: \""@);
    reveal_strlit("name");
    assert(s.subrange(52, 56) =~= "name"@);
    text::lemma_fill_hole(s, b, 51, "name"@);
    reveal_strlit("\".into(), num_args: ");
    assert(s.subrange(57, 77) =~= "\".into(), num_args: "@);
    text::lemma_fill_run(s, b, 57, "\".into(), num_args: "@);
    reveal_strlit("num_args");
    assert(s.subrange(78, 86) =~= "num_args"@);
    text::lemma_fill_hole(s, b, 77, "num_args"@);
    reveal_strlit(", func_flags: ");
    assert(s.subrange(87, 101) =~= ", func_flags: "@);
    text::lemma_fill_run(s, b, 87, ", func_flags: "@);
    reveal_strlit("flags");
    assert(s.subrange(102, 107) =~= "flags"@);
    text::lemma_fill_hole(s, b, 101, "flags"@);
    assert(s.subrange(108, 109) =~= " "@);
    text::lemma_fill_run(s, b, 108, " "@);
    assert(text::fill_from(s, b, 109) == seq!['}'] + text::fill_from(s, b, 111));
    reveal_strlit(",\n");
    assert(s.subrange(111, 113) =~= ",\n"@);
    text::lemma_fill_run(s, b, 111, ",\n"@);
    reveal_strlit("            ScalarFunctionSpec { id: ");
    reveal_strlit(" },\n");
    assert((
        "            ScalarFunctionSpec"@
            + (
                " "@
                    + (
                        seq!['{']
                            + (
                                " id: "@
                                    + (
                                        id
                                            + (
                                                ", name: \""@
                                                    + (
                                                        name
                                                            + (
                                                                "\".into(), num_args: "@
                                                                    + (
                                                                        num_args
                                                                            + (
                                                                                ", func_flags: "@
                                                                                    + (
                                                                                        flags
                                                                                            + (
                                                                                                " "@
                                                                                                    + (
                                                                                                        seq!['}']
                                                                                                            + (
                                                                                                                ",\n"@
                                                                                                                    + text::fill_from(
                                                                                                                        s,
                                                                                                                        b,
                                                                                                                        113,
                                                                                                                    )
                                                                                                            )
                                                                                                    )
                                                                                            )
                                                                                    )
                                                                            )
                                                                    )
                                                            )
                                                    )
                                            )
                                    )
                            )
                    )
            )
    )
        =~= "            ScalarFunctionSpec { id: "@ + id + ", name: \""@ + name
            + "\".into(), num_args: "@ + num_args + ", func_flags: "@ + flags + " },\n"@);
}

proof fn lemma_aggregate_entry(
    id: Seq<char>,
    name: Seq<char>,
    num_args: Seq<char>,
    is_window: Seq<char>,
)
    ensures
        text::fill(
            t::AGGREGATE_ENTRY@,
            seq![("id"@, id), ("name"@, name), ("num_args"@, num_args), ("is_window"@, is_window)],
        )
            == "            AggregateFunctionSpec { id: "@ + id + ", name: \""@ + name
                + "\".into(), num_args: "@ + num_args
                + ", func_flags: FunctionFlags::empty(), is_window: "@ + is_window + " },\n"@,
{
    let s = t::AGGREGATE_ENTRY@;
    let b = seq![("id"@, id), ("name"@, name), ("num_args"@, num_args), ("is_window"@, is_window)];
    reveal_strlit("            AggregateFunctionSpec {{ id: {id}, name: \"{name}\".into(), num_args: {num_args}, func_flags: FunctionFlags::empty(), is_window: {is_window} }},\n");
    reveal_with_fuel(text::plain_to, 31);
    lemma_holes_id_name_num_args_is_window(id, name, num_args, is_window);
    reveal_strlit("            AggregateFunctionS");
    assert(s.subrange(0, 30) =~= "            AggregateFunctionS"@);
    text::lemma_fill_run(s, b, 0, "            AggregateFunctionS"@);
    reveal_strlit("pec ");
    assert(s.subrange(30, 34) =~= "pec "@);
    text::lemma_fill_run(s, b, 30, "pec "@);
    assert(text::fill_from(s, b, 34) == seq!['{'] + text::fill_from(s, b, 36));
    reveal_strlit(" id: ");
    assert(s.subrange(36, 41) =~= " id: "@);
    text::lemma_fill_run(s, b, 36, " id: "@);
    reveal_strlit("id");
    assert(s.subrange(42, 44) =~= "id"@);
    text::lemma_fill_hole(s, b, 41, "id"@);
    reveal_strlit(", name: \"");
    assert(s.subrange(45, 54) =~= ", name: \""@);
    text::lemma_fill_run(s, b, 45, ", name: \""@);
    reveal_strlit("name");
    assert(s.subrange(55, 59) =~= "name"@);
    text::lemma_fill_hole(s, b, 54, "name"@);
    reveal_strlit("\".into(), num_args: ");
    assert(s.subrange(60, 80) =~= "\".into(), num_args: "@);
    text::lemma_fill_run(s, b, 60, "\".into(), num_args: "@);
    reveal_strlit("num_args");
    assert(s.subrange(81, 89) =~= "num_args"@);
    text::lemma_fill_hole(s, b, 80, "num_args"@);
    reveal_strlit(", func_flags: FunctionFlags::e");
    assert(s.subrange(90, 120) =~= ", func_flags: FunctionFlags::e"@);
    text::lemma_fill_run(s, b, 90, ", func_flags: FunctionFlags::e"@);
    reveal_strlit("mpty(), is_window: ");
    assert(s.subrange(120, 139) =~= "mpty(), is_window: "@);
    text::lemma_fill_run(s, b, 120, "mpty(), is_window: "@);
    reveal_strlit("is_window");
    assert(s.subrange(140, 149) =~= "is_window"@);
    text::lemma_fill_hole(s, b, 139, "is_window"@);
    reveal_strlit(" ");
    assert(s.subrange(150, 151) =~= " "@);
    text::lemma_fill_run(s, b, 150, " "@);
    assert(text::fill_from(s, b, 151) == seq!['}'] + text::fill_from(s, b, 153));
    reveal_strlit(",\n");
    assert(s.subrange(153, 155) =~= ",\n"@);
    text::lemma_fill_run(s, b, 153, ",\n"@);
    reveal_strlit("            AggregateFunctionSpec { id: ");
    reveal_strlit(", func_flags: FunctionFlags::empty(), is_window: ");
    reveal_strlit(" },\n");
    assert((
        "            AggregateFunctionS"@
            + (
                "pec "@
                    + (
                        seq!['{']
                            + (
                                " id: "@
                                    + (
                                        id
                                            + (
                                                ", name: \""@
                                                    + (
                                                        name
                                                            + (
                                                                "\".into(), num_args: "@
                                                                    + (
                                                                        num_args
                                                                            + (
                                                                                ", func_flags: FunctionFlags::e"@
                                                                                    + (
                                                                                        "mpty(), is_window: "@
                                                                                            + (
                                                                                                is_window
                                                                                                    + (
                                                                                                        " "@
                                                                                                            + (
                                                                                                                seq!['}']
                                                                                                                    + (
                                                                                                                        ",\n"@
                                                                                                                            + text::fill_from(
                                                                                                                                s,
                                                                                                                                b,
                                                                                                                                155,
                                                                                                                            )
                                                                                                                    )
                                                                                                            )
                                                                                                    )
                                                                                            )
                                                                                    )
                                                                            )
                                                                    )
                                                            )
                                                    )
                                            )
                                    )
                            )
                    )
            )
    )
        =~= "            AggregateFunctionSpec { id: "@ + id + ", name: \""@ + name
            + "\".into(), num_args: "@ + num_args
            + ", func_flags: FunctionFlags::empty(), is_window: "@ + is_window + " },\n"@);
}

proof fn lemma_vtab_entry(id: Seq<char>, name: Seq<char>)
    ensures
        text::fill(t::VTAB_ENTRY@, seq![("id"@, id), ("name"@, name)])
            == "            VtabSpec { id: "@ + id + ", name: \""@ + name
                + "\".into(), eponymous: true, mutable: false, batched: false },\n"@,
{
    let s = t::VTAB_ENTRY@;
    let b = seq![("id"@, id), ("name"@, name)];
    reveal_strlit("            VtabSpec {{ id: {id}, name: \"{name}\".into(), eponymous: true, mutable: false, batched: false }},\n");
    reveal_with_fuel(text::plain_to, 31);
    lemma_holes_id_name(id, name);
    reveal_strlit("            VtabSpec ");
    assert(s.subrange(0, 21) =~= "            VtabSpec "@);
    text::lemma_fill_run(s, b, 0, "            VtabSpec "@);
    assert(text::fill_from(s, b, 21) == seq!['{'] + text::fill_from(s, b, 23));
    reveal_strlit(" id: ");
    assert(s.subrange(23, 28) =~= " id: "@);
    text::lemma_fill_run(s, b, 23, " id: "@);
    reveal_strlit("id");
    assert(s.subrange(29, 31) =~= "id"@);
    text::lemma_fill_hole(s, b, 28, "id"@);
    reveal_strlit(", name: \"");
    assert(s.subrange(32, 41) =~= ", name: \""@);
    text::lemma_fill_run(s, b, 32, ", name: \""@);
    reveal_strlit("name");
    assert(s.subrange(42, 46) =~= "name"@);
    text::lemma_fill_hole(s, b, 41, "name"@);
    reveal_strlit("\".into(), eponymous: true, mut");
    assert(s.subrange(47, 77) =~= "\".into(), eponymous: true, mut"@);
    text::lemma_fill_run(s, b, 47, "\".into(), eponymous: true, mut"@);
    reveal_strlit("able: false, batched: false ");
    assert(s.subrange(77, 105) =~= "able: false, batched: false "@);
    text::lemma_fill_run(s, b, 77, "able: false, batched: false "@);
    assert(text::fill_from(s, b, 105) == seq!['}'] + text::fill_from(s, b, 107));
    reveal_strlit(",\n");
    assert(s.subrange(107, 109) =~= ",\n"@);
    text::lemma_fill_run(s, b, 107, ",\n"@);
    reveal_strlit("            VtabSpec { id: ");
    reveal_strlit("\".into(), eponymous: true, mutable: false, batched: false },\n");
    assert((
        "            VtabSpec "@
            + (
                seq!['{']
                    + (
                        " id: "@
                            + (
                                id
                                    + (
                                        ", name: \""@
                                            + (
                                                name
                                                    + (
                                                        "\".into(), eponymous: true, mut"@
                                                            + (
                                                                "able: false, batched: false "@
                                                                    + (
                                                                        seq!['}']
                                                                            + (
                                                                                ",\n"@
                                                                                    + text::fill_from(
                                                                                        s,
                                                                                        b,
                                                                                        109,
                                                                                    )
                                                                            )
                                                                    )
                                                            )
                                                    )
                                            )
                                    )
                            )
                    )
            )
    )
        =~= "            VtabSpec { id: "@ + id + ", name: \""@ + name
            + "\".into(), eponymous: true, mutable: false, batched: false },\n"@);
}

} // verus!
