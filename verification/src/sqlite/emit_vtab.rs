//! The virtual tables of a bridge: each table function is called when its table is read, and its
//! rows are handed out one by one.

use vstd::prelude::*;
use vstd::string::*;

use crate::describe;
use crate::ir::{
    self, ColumnAffinity, ParamShape, UdtfEntry, UdtfField, UdtfFieldShape, UdtfOutputRow,
};
use crate::sqlite::lib_templates as t;
use crate::sqlite::listing::{self, Listed, ListedFn};
use crate::sqlite::vtab::{self, build_vtab_schema, visible_column_count};
use crate::text::{self, cat, cat3, fill1, fill2, fill3, fill4, fill5};
use crate::words::{self, decimal_u64, decimal_usize, escape_quotes, join, replace_char, to_snake};

verus! {

// ─── Literals ───

/// `s` as a Rust string literal: in quotes, with quotes and backslashes escaped.
pub open spec fn literal(s: Seq<char>) -> Seq<char> {
    "\""@ + words::escaped(words::replaced(s, '\\', "\\\\"@)) + "\""@
}

/// Writes `s` as a Rust string literal.
pub fn rust_string_literal(s: &str) -> (r: String)
    ensures
        r@ == literal(s@),
{
    let slashes = replace_char(s, '\\', "\\\\");
    let both = escape_quotes(slashes.as_str());
    cat3("\"", both.as_str(), "\"")
}

/// What a Rust string literal reads as, from position `k` of the text between its quotes: a
/// backslash stands for what follows it.
pub open spec fn read_from(s: Seq<char>, k: int) -> Seq<char>
    decreases s.len() - k,
{
    if k >= s.len() {
        Seq::empty()
    } else if s[k] == '\\' && k + 1 < s.len() {
        seq![s[k + 1]] + read_from(s, k + 2)
    } else {
        seq![s[k]] + read_from(s, k + 1)
    }
}

/// The literal of a text, without its quotes, reads as that text.
pub proof fn law_literal_reads_back(s: Seq<char>)
    ensures
        literal(s) == "\""@ + literal(s).subrange(1, literal(s).len() - 1) + "\""@,
        read_from(literal(s).subrange(1, literal(s).len() - 1), 0) == s,
{
    reveal_strlit("\"");
    let inner = words::escaped(words::replaced(s, '\\', "\\\\"@));
    assert(literal(s).subrange(1, literal(s).len() - 1) =~= inner);
    assert(literal(s) =~= "\""@ + inner + "\""@);
    lemma_escaped_twice(s, s.len());
    lemma_read_prefix(s, s.len(), Seq::empty());
    assert(escaped_prefix(s, s.len()) + Seq::<char>::empty() =~= escaped_prefix(s, s.len()));
    assert(read_from(Seq::empty(), 0) =~= Seq::<char>::empty());
    assert(s.take(s.len() as int) + Seq::<char>::empty() =~= s);
}

/// A character as a literal holds it.
spec fn escaped_char(c: char) -> Seq<char> {
    if c == '\\' || c == '"' {
        seq!['\\', c]
    } else {
        seq![c]
    }
}

/// The first `n` characters of a text as a literal holds them.
spec fn escaped_prefix(s: Seq<char>, n: nat) -> Seq<char>
    decreases n,
{
    if n == 0 {
        Seq::empty()
    } else {
        escaped_prefix(s, (n - 1) as nat) + escaped_char(s[n - 1])
    }
}

/// Escaping backslashes and then quotes escapes each character by itself.
proof fn lemma_escaped_twice(s: Seq<char>, n: nat)
    requires
        n <= s.len(),
    ensures
        ({
            let slashes = words::replaced_prefix(s, '\\', "\\\\"@, n);
            words::replaced_prefix(slashes, '"', "\\\""@, slashes.len())
        }) == escaped_prefix(s, n),
    decreases n,
{
    reveal_strlit("\\\\");
    reveal_strlit("\\\"");
    if n > 0 {
        lemma_escaped_twice(s, (n - 1) as nat);
        let before = words::replaced_prefix(s, '\\', "\\\\"@, (n - 1) as nat);
        let c = s[n - 1];
        let added = if c == '\\' {
            "\\\\"@
        } else {
            seq![c]
        };
        let all = words::replaced_prefix(s, '\\', "\\\\"@, n);
        assert(all =~= before + added);
        lemma_replaced_append(before, added, '"', "\\\""@, added.len());
        reveal_with_fuel(words::replaced_prefix, 3);
        assert(words::replaced_prefix(added, '"', "\\\""@, added.len()) =~= escaped_char(c));
    }
}

/// Replacing goes on behind a text as if it stood alone.
proof fn lemma_replaced_append(a: Seq<char>, b: Seq<char>, c: char, with: Seq<char>, n: nat)
    requires
        n <= b.len(),
    ensures
        words::replaced_prefix(a + b, c, with, a.len() + n) == words::replaced_prefix(
            a,
            c,
            with,
            a.len(),
        ) + words::replaced_prefix(b, c, with, n),
    decreases n,
{
    if n == 0 {
        lemma_replaced_head(a, b, c, with, a.len());
        assert(words::replaced_prefix(a, c, with, a.len()) + Seq::<char>::empty()
            =~= words::replaced_prefix(a, c, with, a.len()));
    } else {
        lemma_replaced_append(a, b, c, with, (n - 1) as nat);
        assert((a + b)[a.len() + n - 1] == b[n - 1]);
        let head = words::replaced_prefix(a, c, with, a.len());
        let mid = words::replaced_prefix(b, c, with, (n - 1) as nat);
        let last = if b[n - 1] == c {
            with
        } else {
            seq![b[n - 1]]
        };
        assert(words::replaced_prefix(a + b, c, with, a.len() + n) =~= (head + mid) + last);
        assert(words::replaced_prefix(b, c, with, n) =~= mid + last);
        assert((head + mid) + last =~= head + (mid + last));
    }
}

proof fn lemma_replaced_head(a: Seq<char>, b: Seq<char>, c: char, with: Seq<char>, n: nat)
    requires
        n <= a.len(),
    ensures
        words::replaced_prefix(a + b, c, with, n) == words::replaced_prefix(a, c, with, n),
    decreases n,
{
    if n > 0 {
        lemma_replaced_head(a, b, c, with, (n - 1) as nat);
        assert((a + b)[n - 1] == a[n - 1]);
    }
}

/// Reading what a literal holds of the first `n` characters gives these, and goes on with `rest`.
proof fn lemma_read_prefix(s: Seq<char>, n: nat, rest: Seq<char>)
    requires
        n <= s.len(),
    ensures
        read_from(escaped_prefix(s, n) + rest, 0) == s.take(n as int) + read_from(rest, 0),
    decreases n,
{
    if n == 0 {
        assert(escaped_prefix(s, 0) + rest =~= rest);
        assert(s.take(0) + read_from(rest, 0) =~= read_from(rest, 0));
    } else {
        let c = s[n - 1];
        let e = escaped_char(c);
        lemma_read_prefix(s, (n - 1) as nat, e + rest);
        assert(escaped_prefix(s, n) + rest =~= escaped_prefix(s, (n - 1) as nat) + (e + rest));
        lemma_read_shift(e, rest);
        assert(read_from(e + rest, 0) =~= seq![c] + read_from(rest, 0));
        assert(s.take(n as int) =~= s.take(n - 1).push(c));
        assert(s.take(n - 1) + (seq![c] + read_from(rest, 0)) =~= s.take(n as int) + read_from(
            rest,
            0,
        ));
    }
}

/// Reading goes on behind a text as if the rest stood alone.
proof fn lemma_read_shift(e: Seq<char>, rest: Seq<char>)
    ensures
        read_from(e + rest, e.len() as int) == read_from(rest, 0),
{
    lemma_read_shift_from(e, rest, 0);
}

proof fn lemma_read_shift_from(e: Seq<char>, rest: Seq<char>, k: int)
    requires
        0 <= k,
    ensures
        read_from(e + rest, e.len() + k) == read_from(rest, k),
    decreases rest.len() - k,
{
    if k < rest.len() {
        assert((e + rest)[e.len() + k] == rest[k]);
        if k + 1 < rest.len() {
            assert((e + rest)[e.len() + k + 1] == rest[k + 1]);
            lemma_read_shift_from(e, rest, k + 2);
        }
        lemma_read_shift_from(e, rest, k + 1);
    }
}

// ─── Arguments ───

/// Whether a table function can take a parameter of this shape.
pub open spec fn table_param_wired(p: ParamShape) -> bool {
    match p {
        ParamShape::Geom
        | ParamShape::F64
        | ParamShape::S32
        | ParamShape::S64
        | ParamShape::U32
        | ParamShape::U64
        | ParamShape::Bool
        | ParamShape::Blob
        | ParamShape::OptionNone => true,
        ParamShape::WitValueRecord { kebab_name, upstream_by_value } => true,
        ParamShape::ListRecord { kebab_name } => true,
        _ => false,
    }
}

fn is_table_param_wired(p: &ParamShape) -> (r: bool)
    ensures
        r == table_param_wired(*p),
{
    match p {
        ParamShape::Geom
        | ParamShape::F64
        | ParamShape::S32
        | ParamShape::S64
        | ParamShape::U32
        | ParamShape::U64
        | ParamShape::Bool
        | ParamShape::Blob
        | ParamShape::OptionNone => true,
        ParamShape::WitValueRecord { kebab_name: _, upstream_by_value: _ } => true,
        ParamShape::ListRecord { kebab_name: _ } => true,
        _ => false,
    }
}

/// The position of the first parameter, at `k` or later, of a shape that table functions do not
/// take, or the number of parameters.
pub open spec fn unwired_param_from(params: Seq<ParamShape>, k: int) -> int
    decreases params.len() - k,
{
    if k >= params.len() || !table_param_wired(params[k]) {
        k
    } else {
        unwired_param_from(params, k + 1)
    }
}

fn find_unwired_param(params: &Vec<ParamShape>) -> (r: usize)
    ensures
        r <= params@.len(),
        r == unwired_param_from(params@, 0),
{
    let mut k: usize = 0;
    while k < params.len() && is_table_param_wired(&params[k])
        invariant
            k <= params@.len(),
            unwired_param_from(params@, 0) == unwired_param_from(params@, k as int),
        decreases params.len() - k,
    {
        k = k + 1;
    }
    k
}

/// The declaration of an argument; there is none for an option that is never given.
pub open spec fn table_decl(p: ParamShape, idx: nat, name: Seq<char>, i: Seq<char>) -> Seq<char> {
    let holes = seq![("i"@, i), ("idx"@, words::decimal(idx)), ("name"@, name)];
    match p {
        ParamShape::Geom => text::fill(t::TABLE_GEOM@, holes),
        ParamShape::F64 => text::fill(t::TABLE_F64@, holes),
        ParamShape::S32 => text::fill(t::TABLE_S32@, holes),
        ParamShape::S64 => text::fill(t::TABLE_S64@, holes),
        ParamShape::U32 => text::fill(t::TABLE_U32@, holes),
        ParamShape::U64 => text::fill(t::TABLE_U64@, holes),
        ParamShape::Bool => text::fill(t::TABLE_BOOL@, holes),
        ParamShape::Blob => text::fill(t::TABLE_BLOB@, holes),
        ParamShape::WitValueRecord { kebab_name, upstream_by_value } => text::fill(
            t::TABLE_WIT_VALUE@,
            seq![
                ("i"@, i),
                ("idx"@, words::decimal(idx)),
                ("name"@, name),
                ("snake"@, words::snake(kebab_name@)),
            ],
        ),
        ParamShape::ListRecord { kebab_name } => text::fill(
            t::TABLE_LIST_RECORD@,
            seq![
                ("i"@, i),
                ("idx"@, words::decimal(idx)),
                ("name"@, name),
                ("snake"@, words::snake(kebab_name@)),
            ],
        ),
        _ => Seq::empty(),
    }
}

fn render_table_decl(p: &ParamShape, idx: usize, name: &str, i: &str) -> (r: String)
    ensures
        r@ == table_decl(*p, idx as nat, name@, i@),
{
    let number = decimal_usize(idx);
    match p {
        ParamShape::Geom => fill3(
            t::TABLE_GEOM,
            "i",
            i,
            "idx",
            number.as_str(),
            "name",
            name,
        ),
        ParamShape::F64 => fill3(
            t::TABLE_F64,
            "i",
            i,
            "idx",
            number.as_str(),
            "name",
            name,
        ),
        ParamShape::S32 => fill3(
            t::TABLE_S32,
            "i",
            i,
            "idx",
            number.as_str(),
            "name",
            name,
        ),
        ParamShape::S64 => fill3(
            t::TABLE_S64,
            "i",
            i,
            "idx",
            number.as_str(),
            "name",
            name,
        ),
        ParamShape::U32 => fill3(
            t::TABLE_U32,
            "i",
            i,
            "idx",
            number.as_str(),
            "name",
            name,
        ),
        ParamShape::U64 => fill3(
            t::TABLE_U64,
            "i",
            i,
            "idx",
            number.as_str(),
            "name",
            name,
        ),
        ParamShape::Bool => fill3(
            t::TABLE_BOOL,
            "i",
            i,
            "idx",
            number.as_str(),
            "name",
            name,
        ),
        ParamShape::Blob => fill3(
            t::TABLE_BLOB,
            "i",
            i,
            "idx",
            number.as_str(),
            "name",
            name,
        ),
        ParamShape::WitValueRecord { kebab_name, upstream_by_value: _ } => {
            let snake = to_snake(kebab_name.as_str());
            fill4(
                t::TABLE_WIT_VALUE,
                "i",
                i,
                "idx",
                number.as_str(),
                "name",
                name,
                "snake",
                snake.as_str(),
            )
        },
        ParamShape::ListRecord { kebab_name } => {
            let snake = to_snake(kebab_name.as_str());
            fill4(
                t::TABLE_LIST_RECORD,
                "i",
                i,
                "idx",
                number.as_str(),
                "name",
                name,
                "snake",
                snake.as_str(),
            )
        },
        _ => String::new(),
    }
}

/// The declarations of the first `n` arguments.
pub open spec fn table_decls(params: Seq<ParamShape>, name: Seq<char>, i: Seq<char>, n: nat) -> Seq<
    char,
>
    decreases n,
{
    if n == 0 {
        Seq::empty()
    } else {
        table_decls(params, name, i, (n - 1) as nat) + table_decl(
            params[n - 1],
            (n - 1) as nat,
            name,
            i,
        )
    }
}

/// Whether the function that is called borrows an argument of this shape.
pub open spec fn table_arg_borrowed(p: ParamShape) -> bool {
    match p {
        ParamShape::Geom => true,
        ParamShape::WitValueRecord { kebab_name, upstream_by_value } => !upstream_by_value,
        ParamShape::ListRecord { kebab_name } => true,
        _ => false,
    }
}

/// The expressions that hand the arguments over.
pub open spec fn table_args(params: Seq<ParamShape>) -> Seq<Seq<char>> {
    Seq::new(
        params.len(),
        |k: int|
            if params[k] is OptionNone {
                "None"@
            } else if table_arg_borrowed(params[k]) {
                "&arg"@ + words::decimal(k as nat)
            } else {
                "arg"@ + words::decimal(k as nat)
            },
    )
}

fn list_table_args(params: &Vec<ParamShape>) -> (r: Vec<String>)
    ensures
        text::strs(r@) == table_args(params@),
{
    let mut r: Vec<String> = Vec::new();
    let mut k: usize = 0;
    while k < params.len()
        invariant
            k <= params@.len(),
            r@.len() == k,
            forall|j: int| 0 <= j < k ==> #[trigger] r@[j]@ == table_args(params@)[j],
        decreases params.len() - k,
    {
        let number = decimal_usize(k);
        let arg = match &params[k] {
            ParamShape::OptionNone => "None".to_owned(),
            ParamShape::Geom => cat("&arg", number.as_str()),
            ParamShape::ListRecord { kebab_name: _ } => cat("&arg", number.as_str()),
            ParamShape::WitValueRecord { kebab_name: _, upstream_by_value } => {
                if *upstream_by_value {
                    cat("arg", number.as_str())
                } else {
                    cat("&arg", number.as_str())
                }
            },
            _ => cat("arg", number.as_str()),
        };
        r.push(arg);
        k = k + 1;
    }
    assert(text::strs(r@) =~= table_args(params@));
    r
}

// ─── Rows ───

/// How a value of a column with this affinity becomes a SQL value.
pub open spec fn cell(a: ColumnAffinity) -> Seq<char> {
    match a {
        ColumnAffinity::Integer => "SqlValue::Integer(*v as i64)"@,
        ColumnAffinity::Real => "SqlValue::Real(*v as f64)"@,
        ColumnAffinity::Text => "SqlValue::Text(v.clone())"@,
        ColumnAffinity::Blob => "SqlValue::Blob(v.clone())"@,
    }
}

/// The template for a field of a row.
pub open spec fn field_template(s: UdtfFieldShape) -> Seq<char> {
    match s {
        UdtfFieldShape::Int => t::FIELD_INT@,
        UdtfFieldShape::Real => t::FIELD_REAL@,
        UdtfFieldShape::Text => t::FIELD_TEXT@,
        UdtfFieldShape::Blob => t::FIELD_BLOB@,
        UdtfFieldShape::GeomBlob => t::FIELD_GEOM@,
        UdtfFieldShape::OptionInt => t::FIELD_OPTION_INT@,
        UdtfFieldShape::OptionReal => t::FIELD_OPTION_REAL@,
        UdtfFieldShape::OptionText => t::FIELD_OPTION_TEXT@,
        UdtfFieldShape::OptionBlob => t::FIELD_OPTION_BLOB@,
        UdtfFieldShape::OptionGeomBlob => t::FIELD_OPTION_GEOM@,
        UdtfFieldShape::Unsupported => t::FIELD_UNSUPPORTED@,
    }
}

fn pick_field_template(s: UdtfFieldShape) -> (r: &'static str)
    ensures
        r@ == field_template(s),
{
    match s {
        UdtfFieldShape::Int => t::FIELD_INT,
        UdtfFieldShape::Real => t::FIELD_REAL,
        UdtfFieldShape::Text => t::FIELD_TEXT,
        UdtfFieldShape::Blob => t::FIELD_BLOB,
        UdtfFieldShape::GeomBlob => t::FIELD_GEOM,
        UdtfFieldShape::OptionInt => t::FIELD_OPTION_INT,
        UdtfFieldShape::OptionReal => t::FIELD_OPTION_REAL,
        UdtfFieldShape::OptionText => t::FIELD_OPTION_TEXT,
        UdtfFieldShape::OptionBlob => t::FIELD_OPTION_BLOB,
        UdtfFieldShape::OptionGeomBlob => t::FIELD_OPTION_GEOM,
        UdtfFieldShape::Unsupported => t::FIELD_UNSUPPORTED,
    }
}

/// The SQL values of the first `n` fields of a row.
pub open spec fn field_lines(fields: Seq<UdtfField>, i: Seq<char>, n: nat) -> Seq<char>
    decreases n,
{
    if n == 0 {
        Seq::empty()
    } else {
        field_lines(fields, i, (n - 1) as nat) + text::fill(
            t::FIELD_LINE@,
            seq![
                ("i"@, i),
                (
                    "expr"@,
                    text::fill(
                        field_template(fields[n - 1].field_shape),
                        seq![("fsnake"@, words::snake(fields[n - 1].name@))],
                    ),
                ),
            ],
        )
    }
}

/// The text that turns what the function gave into rows of SQL values.
pub open spec fn rows(row: UdtfOutputRow, i: Seq<char>, name: Seq<char>) -> Seq<char> {
    match row {
        UdtfOutputRow::SingleGeom { column_name } => text::fill(t::ROWS_GEOM@, seq![("i"@, i)]),
        UdtfOutputRow::SinglePrimitive { affinity } => text::fill(
            t::ROWS_PRIMITIVE@,
            seq![("i"@, i), ("cell"@, cell(affinity))],
        ),
        UdtfOutputRow::Record { fields } => text::fill(
            t::ROWS_RECORD@,
            seq![("i"@, i), ("field_exprs"@, field_lines(fields@, i, fields@.len()))],
        ),
        UdtfOutputRow::Unwired { reason } => text::fill(
            t::ROWS_UNWIRED@,
            seq![("i"@, i), ("name"@, name), ("reason"@, words::escaped(reason@))],
        ),
    }
}

/// Writes the text that turns what a table function gave into rows of SQL values.
pub fn emit_row_materialiser(row: &UdtfOutputRow, i: &str, name: &str) -> (r: String)
    ensures
        r@ == rows(*row, i@, name@),
{
    match row {
        UdtfOutputRow::SingleGeom { column_name: _ } => fill1(t::ROWS_GEOM, "i", i),
        UdtfOutputRow::SinglePrimitive { affinity } => {
            let cell = match affinity {
                ColumnAffinity::Integer => "SqlValue::Integer(*v as i64)",
                ColumnAffinity::Real => "SqlValue::Real(*v as f64)",
                ColumnAffinity::Text => "SqlValue::Text(v.clone())",
                ColumnAffinity::Blob => "SqlValue::Blob(v.clone())",
            };
            fill2(t::ROWS_PRIMITIVE, "i", i, "cell", cell)
        },
        UdtfOutputRow::Record { fields } => {
            let mut lines = String::new();
            let mut k: usize = 0;
            while k < fields.len()
                invariant
                    k <= fields@.len(),
                    lines@ == field_lines(fields@, i@, k as nat),
                decreases fields.len() - k,
            {
                let fsnake = to_snake(fields[k].name.as_str());
                let expr = fill1(
                    pick_field_template(fields[k].field_shape),
                    "fsnake",
                    fsnake.as_str(),
                );
                let line = fill2(t::FIELD_LINE, "i", i, "expr", expr.as_str());
                lines.append(line.as_str());
                k = k + 1;
            }
            fill2(t::ROWS_RECORD, "i", i, "field_exprs", lines.as_str())
        },
        UdtfOutputRow::Unwired { reason } => {
            let escaped = escape_quotes(reason.as_str());
            fill3(t::ROWS_UNWIRED, "i", i, "name", name, "reason", escaped.as_str())
        },
    }
}

// ─── Reading a table ───

/// Words for a message inside a format string: quotes escaped, braces doubled.
pub open spec fn in_format(s: Seq<char>) -> Seq<char> {
    words::replaced(words::replaced(words::escaped(s), '{', "{{"@), '}', "}}"@)
}

/// The call of a table function.
pub open spec fn table_call(entry: UdtfEntry, i: Seq<char>) -> Seq<char> {
    let args = words::joined(table_args(entry.shape.params@), ", "@);
    if entry.shape.fallible {
        text::fill(
            t::TABLE_CALL_FALLIBLE@,
            seq![
                ("i"@, i),
                ("module"@, entry.shape.wit_module@),
                ("func"@, entry.shape.wit_func@),
                ("call_args_str"@, args),
                ("name"@, entry.sql_name@),
            ],
        )
    } else {
        text::fill(
            t::TABLE_CALL@,
            seq![
                ("i"@, i),
                ("module"@, entry.shape.wit_module@),
                ("func"@, entry.shape.wit_func@),
                ("call_args_str"@, args),
            ],
        )
    }
}

/// What is done when a table is read: take the arguments, call the table function, and keep its
/// rows. A parameter of a shape that table functions do not take turns it into an error that
/// describes the first of them.
pub open spec fn filter_body(entry: UdtfEntry, i: Seq<char>) -> Seq<char> {
    let params = entry.shape.params@;
    let j = unwired_param_from(params, 0);
    if j < params.len() {
        text::fill(
            t::TABLE_UNWIRED@,
            seq![
                ("i"@, i),
                ("name"@, entry.sql_name@),
                ("shape_dbg"@, in_format(describe::param_words(params[j]))),
            ],
        )
    } else {
        table_decls(params, entry.sql_name@, i, params.len()) + table_call(entry, i) + rows(
            entry.shape.output_row,
            i,
            entry.sql_name@,
        ) + text::fill(t::TABLE_STORE@, seq![("i"@, i)])
    }
}

fn render_table_call(entry: &UdtfEntry, i: &str) -> (r: String)
    ensures
        r@ == table_call(*entry, i@),
{
    let list = list_table_args(&entry.shape.params);
    let args = join(&list, ", ");
    if entry.shape.fallible {
        fill5(
            t::TABLE_CALL_FALLIBLE,
            "i",
            i,
            "module",
            entry.shape.wit_module.as_str(),
            "func",
            entry.shape.wit_func.as_str(),
            "call_args_str",
            args.as_str(),
            "name",
            entry.sql_name.as_str(),
        )
    } else {
        fill4(
            t::TABLE_CALL,
            "i",
            i,
            "module",
            entry.shape.wit_module.as_str(),
            "func",
            entry.shape.wit_func.as_str(),
            "call_args_str",
            args.as_str(),
        )
    }
}

/// Writes what is done when the table of a table function is read.
pub fn emit_udtf_filter_body(entry: &UdtfEntry, arm_indent: &str) -> (r: String)
    ensures
        r@ == filter_body(*entry, arm_indent@),
{
    let params = &entry.shape.params;
    let name = entry.sql_name.as_str();
    let j = find_unwired_param(params);
    if j < params.len() {
        let words = describe::describe_param(&params[j]);
        let quoted = escape_quotes(words.as_str());
        let opened = replace_char(quoted.as_str(), '{', "{{");
        let shape = replace_char(opened.as_str(), '}', "}}");
        return fill3(
            t::TABLE_UNWIRED,
            "i",
            arm_indent,
            "name",
            name,
            "shape_dbg",
            shape.as_str(),
        );
    }
    let mut s = String::new();
    let mut k: usize = 0;
    while k < params.len()
        invariant
            k <= params@.len(),
            s@ == table_decls(params@, name@, arm_indent@, k as nat),
        decreases params.len() - k,
    {
        let decl = render_table_decl(&params[k], k, name, arm_indent);
        s.append(decl.as_str());
        k = k + 1;
    }
    let call = render_table_call(entry, arm_indent);
    s.append(call.as_str());
    let rows = emit_row_materialiser(&entry.shape.output_row, arm_indent, name);
    s.append(rows.as_str());
    let store = fill1(t::TABLE_STORE, "i", arm_indent);
    s.append(store.as_str());
    s
}

// ─── Arms ───

/// How far the bodies of arms are indented.
pub const ARM_INDENT: &'static str = "                ";

/// The number of the arm of the table function at `k`, where it gets one.
pub open spec fn table_arm(entries: Seq<UdtfEntry>, tables: Seq<ListedFn>, k: nat) -> Option<nat> {
    listing::arm_at(
        Seq::empty(),
        ir::udtf_names(entries),
        tables,
        listing::TABLE_BASE as nat,
        k,
    )
}

/// The arm that gives the schema of a table.
pub open spec fn connect_arm(entry: UdtfEntry, id: nat) -> Seq<char> {
    text::fill(
        t::CONNECT_ARM@,
        seq![("id"@, words::decimal(id)), ("schema_lit"@, literal(vtab::schema(entry.shape)))],
    )
}

/// The arm that reads a table.
pub open spec fn filter_arm(entry: UdtfEntry, id: nat) -> Seq<char> {
    text::fill(
        t::ARM@,
        seq![("id"@, words::decimal(id)), ("body"@, filter_body(entry, ARM_INDENT@))],
    )
}

/// The arm that gives a column of a row: hidden columns are NULL.
pub open spec fn column_arm(entry: UdtfEntry, id: nat) -> Seq<char> {
    text::fill(
        t::COLUMN_ARM@,
        seq![
            ("id"@, words::decimal(id)),
            (
                "visible_count"@,
                words::decimal(vtab::visible_names(entry.shape.output_row).len()),
            ),
        ],
    )
}

/// The arms of the first `n` table functions that give the schemas.
pub open spec fn connect_arms(entries: Seq<UdtfEntry>, tables: Seq<ListedFn>, n: nat) -> Seq<char>
    decreases n,
{
    if n == 0 {
        Seq::empty()
    } else {
        connect_arms(entries, tables, (n - 1) as nat) + match table_arm(entries, tables, (n - 1) as nat) {
            Some(id) => connect_arm(entries[n - 1], id),
            None => Seq::empty(),
        }
    }
}

/// The arms of the first `n` table functions that read the tables.
pub open spec fn filter_arms(entries: Seq<UdtfEntry>, tables: Seq<ListedFn>, n: nat) -> Seq<char>
    decreases n,
{
    if n == 0 {
        Seq::empty()
    } else {
        filter_arms(entries, tables, (n - 1) as nat) + match table_arm(entries, tables, (n - 1) as nat) {
            Some(id) => filter_arm(entries[n - 1], id),
            None => Seq::empty(),
        }
    }
}

/// The arms of the first `n` table functions that give columns.
pub open spec fn column_arms(entries: Seq<UdtfEntry>, tables: Seq<ListedFn>, n: nat) -> Seq<char>
    decreases n,
{
    if n == 0 {
        Seq::empty()
    } else {
        column_arms(entries, tables, (n - 1) as nat) + match table_arm(entries, tables, (n - 1) as nat) {
            Some(id) => column_arm(entries[n - 1], id),
            None => Seq::empty(),
        }
    }
}

/// The implementation of virtual tables.
pub open spec fn vtab_impl(
    bridge_struct: Seq<char>,
    entries: Seq<UdtfEntry>,
    tables: Seq<ListedFn>,
) -> Seq<char> {
    text::fill(
        t::VTAB_IMPL@,
        seq![
            ("bridge_struct"@, bridge_struct),
            ("connect_arms"@, connect_arms(entries, tables, entries.len())),
            ("filter_arms"@, filter_arms(entries, tables, entries.len())),
            ("column_arms"@, column_arms(entries, tables, entries.len())),
        ],
    )
}

/// Writes the implementation of virtual tables, with arms for each table function.
pub fn emit_vtab_impl(bridge_struct: &str, udtf_entries: &Vec<UdtfEntry>, tables: &Vec<Listed>) -> (r:
    String)
    requires
        listing::ids_fit(listing::listed(tables@), listing::TABLE_BASE as nat),
    ensures
        r@ == vtab_impl(bridge_struct@, udtf_entries@, listing::listed(tables@)),
{
    let ghost all = listing::listed(tables@);
    let ghost names = ir::udtf_names(udtf_entries@);
    let ghost base = listing::TABLE_BASE as nat;
    let mut seen: Vec<u64> = Vec::new();
    let mut connects = String::new();
    let mut filters = String::new();
    let mut columns = String::new();
    let mut k: usize = 0;
    assert(listing::numbers(seen@) =~= Seq::<nat>::empty());
    while k < udtf_entries.len()
        invariant
            k <= udtf_entries@.len(),
            all == listing::listed(tables@),
            names == ir::udtf_names(udtf_entries@),
            base == listing::TABLE_BASE as nat,
            listing::ids_fit(all, base),
            listing::numbers(seen@) == listing::arm_ids(Seq::empty(), names, all, base, k as nat),
            connects@ == connect_arms(udtf_entries@, all, k as nat),
            filters@ == filter_arms(udtf_entries@, all, k as nat),
            columns@ == column_arms(udtf_entries@, all, k as nat),
        decreases udtf_entries.len() - k,
    {
        let entry = &udtf_entries[k];
        assert(names[k as int] == entry.sql_name@);
        match listing::next_arm(&mut seen, tables, listing::TABLE_BASE, entry.sql_name.as_str()) {
            Some(id) => {
                let number = decimal_u64(id);
                let schema = build_vtab_schema(&entry.shape);
                let schema_lit = rust_string_literal(schema.as_str());
                let connect = fill2(
                    t::CONNECT_ARM,
                    "id",
                    number.as_str(),
                    "schema_lit",
                    schema_lit.as_str(),
                );
                connects.append(connect.as_str());
                let body = emit_udtf_filter_body(entry, ARM_INDENT);
                let filter = fill2(t::ARM, "id", number.as_str(), "body", body.as_str());
                filters.append(filter.as_str());
                let count = decimal_usize(visible_column_count(&entry.shape.output_row));
                let column = fill2(
                    t::COLUMN_ARM,
                    "id",
                    number.as_str(),
                    "visible_count",
                    count.as_str(),
                );
                columns.append(column.as_str());
            },
            None => {
                proof {
                    assert(connects@ + Seq::<char>::empty() =~= connects@);
                    assert(filters@ + Seq::<char>::empty() =~= filters@);
                    assert(columns@ + Seq::<char>::empty() =~= columns@);
                }
            },
        }
        k = k + 1;
    }
    fill4(
        t::VTAB_IMPL,
        "bridge_struct",
        bridge_struct,
        "connect_arms",
        connects.as_str(),
        "filter_arms",
        filters.as_str(),
        "column_arms",
        columns.as_str(),
    )
}

} // verus!
