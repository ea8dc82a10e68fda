//! The schema of a virtual table: the columns of its rows, then one hidden column for each
//! parameter of the function behind it.

use vstd::prelude::*;
use vstd::string::*;

use crate::ir::{UdtfOutputRow, UdtfShape};
use crate::text::{self, cat, cat3};
use crate::words::{self, decimal_usize, has, join};

verus! {

/// The names of the columns of a row.
pub open spec fn visible_names(row: UdtfOutputRow) -> Seq<Seq<char>> {
    match row {
        UdtfOutputRow::SingleGeom { column_name } => seq![column_name@],
        UdtfOutputRow::Record { fields } => Seq::new(fields@.len(), |k: int| fields@[k].name@),
        _ => seq!["value"@],
    }
}

/// The types of the columns of a row.
pub open spec fn visible_types(row: UdtfOutputRow) -> Seq<Seq<char>> {
    match row {
        UdtfOutputRow::SinglePrimitive { affinity } => seq![affinity.sql_type()],
        UdtfOutputRow::Record { fields } => Seq::new(
            fields@.len(),
            |k: int| fields@[k].affinity.sql_type(),
        ),
        _ => seq!["BLOB"@],
    }
}

/// The name that stands in for the name of parameter `i` where that is taken.
pub open spec fn arg_name(i: nat) -> Seq<char> {
    "_arg"@ + words::decimal(i)
}

/// The names of the hidden columns of the first `n` parameters: each parameter's own, unless a
/// column of the row or an earlier hidden column has it.
pub open spec fn hidden_names(visible: Seq<Seq<char>>, params: Seq<Seq<char>>, n: nat) -> Seq<
    Seq<char>,
>
    decreases n,
{
    if n == 0 {
        Seq::empty()
    } else {
        let head = hidden_names(visible, params, (n - 1) as nat);
        head.push(
            if visible.contains(params[n - 1]) || head.contains(params[n - 1]) {
                arg_name((n - 1) as nat)
            } else {
                params[n - 1]
            },
        )
    }
}

/// The names of all columns of a table function, hidden ones last.
pub open spec fn column_names(shape: UdtfShape) -> Seq<Seq<char>> {
    let visible = visible_names(shape.output_row);
    visible + hidden_names(visible, text::strs(shape.param_names@), shape.param_names@.len())
}

/// A column as a schema declares it, its name in double quotes.
pub open spec fn column(name: Seq<char>, kind: Seq<char>) -> Seq<char> {
    "\""@ + name + "\" "@ + kind
}

/// The columns of a schema as it declares them.
pub open spec fn columns(shape: UdtfShape) -> Seq<Seq<char>> {
    let names = column_names(shape);
    let types = visible_types(shape.output_row);
    Seq::new(
        names.len(),
        |k: int| column(names[k], if k < types.len() { types[k] } else { "HIDDEN"@ }),
    )
}

/// The schema of the virtual table of a table function.
pub open spec fn schema(shape: UdtfShape) -> Seq<char> {
    "CREATE TABLE x("@ + words::joined(columns(shape), ", "@) + ")"@
}

fn render_column(name: &str, kind: &str) -> (r: String)
    ensures
        r@ == column(name@, kind@),
{
    let quoted = cat3("\"", name, "\" ");
    cat(quoted.as_str(), kind)
}

/// Lists the columns of a row as a schema declares them, and their names.
fn list_visible(row: &UdtfOutputRow) -> (r: (Vec<String>, Vec<String>))
    ensures
        text::strs(r.1@) == visible_names(*row),
        r.0@.len() == r.1@.len(),
        forall|k: int|
            0 <= k < r.0@.len() ==> #[trigger] r.0@[k]@ == column(
                visible_names(*row)[k],
                visible_types(*row)[k],
            ),
{
    let mut cols: Vec<String> = Vec::new();
    let mut names: Vec<String> = Vec::new();
    match row {
        UdtfOutputRow::SingleGeom { column_name } => {
            cols.push(render_column(column_name.as_str(), "BLOB"));
            names.push(column_name.clone());
        },
        UdtfOutputRow::SinglePrimitive { affinity } => {
            cols.push(render_column("value", affinity.as_str()));
            names.push("value".to_owned());
        },
        UdtfOutputRow::Record { fields } => {
            let mut k: usize = 0;
            while k < fields.len()
                invariant
                    k <= fields@.len(),
                    cols@.len() == k,
                    names@.len() == k,
                    forall|j: int|
                        0 <= j < k ==> #[trigger] cols@[j]@ == column(
                            fields@[j].name@,
                            fields@[j].affinity.sql_type(),
                        ),
                    forall|j: int| 0 <= j < k ==> #[trigger] names@[j]@ == fields@[j].name@,
                decreases fields.len() - k,
            {
                cols.push(render_column(fields[k].name.as_str(), fields[k].affinity.as_str()));
                names.push(fields[k].name.clone());
                k = k + 1;
            }
        },
        UdtfOutputRow::Unwired { .. } => {
            cols.push(render_column("value", "BLOB"));
            names.push("value".to_owned());
        },
    }
    assert(text::strs(names@) =~= visible_names(*row));
    (cols, names)
}

/// Writes the schema of the virtual table of a table function: the columns of its rows, then
/// the hidden columns of its parameters.
pub fn build_vtab_schema(shape: &UdtfShape) -> (r: String)
    ensures
        r@ == schema(*shape),
{
    let ghost visible = visible_names(shape.output_row);
    let ghost params = text::strs(shape.param_names@);
    let ghost types = visible_types(shape.output_row);
    let (mut cols, mut used) = list_visible(&shape.output_row);
    let mut i: usize = 0;
    assert(visible + hidden_names(visible, params, 0) =~= visible);
    while i < shape.param_names.len()
        invariant
            i <= shape.param_names@.len(),
            visible == visible_names(shape.output_row),
            types == visible_types(shape.output_row),
            types.len() == visible.len(),
            params == text::strs(shape.param_names@),
            hidden_names(visible, params, i as nat).len() == i,
            text::strs(used@) == visible + hidden_names(visible, params, i as nat),
            cols@.len() == used@.len(),
            forall|k: int|
                0 <= k < cols@.len() ==> #[trigger] cols@[k]@ == column(
                    text::strs(used@)[k],
                    if k < types.len() {
                        types[k]
                    } else {
                        "HIDDEN"@
                    },
                ),
        decreases shape.param_names.len() - i,
    {
        let ghost head = hidden_names(visible, params, i as nat);
        let ghost was = text::strs(used@);
        let name = shape.param_names[i].as_str();
        let taken = has(&used, name);
        proof {
            assert(params[i as int] == name@);
            lemma_contains_either(visible, head, name@);
        }
        let chosen = if taken {
            let number = decimal_usize(i);
            cat("_arg", number.as_str())
        } else {
            name.to_owned()
        };
        cols.push(render_column(chosen.as_str(), "HIDDEN"));
        used.push(chosen);
        proof {
            assert(text::strs(used@) =~= was.push(chosen@));
            assert((visible + head).push(chosen@) =~= visible + head.push(chosen@));
        }
        i = i + 1;
    }
    assert(text::strs(cols@) =~= columns(*shape));
    let list = join(&cols, ", ");
    cat3("CREATE TABLE x(", list.as_str(), ")")
}

/// A text is in a sequence that is made of two where it is in one of the two.
proof fn lemma_contains_either(a: Seq<Seq<char>>, b: Seq<Seq<char>>, x: Seq<char>)
    ensures
        (a + b).contains(x) <==> a.contains(x) || b.contains(x),
{
    if a.contains(x) {
        let k = choose|k: int| 0 <= k < a.len() && a[k] == x;
        assert((a + b)[k] == x);
    }
    if b.contains(x) {
        let k = choose|k: int| 0 <= k < b.len() && b[k] == x;
        assert((a + b)[a.len() + k] == x);
    }
}

/// The number of columns of a row; hidden ones do not count.
pub fn visible_column_count(row: &UdtfOutputRow) -> (r: usize)
    ensures
        r == visible_names(*row).len(),
{
    match row {
        UdtfOutputRow::SingleGeom { .. } => 1,
        UdtfOutputRow::SinglePrimitive { .. } => 1,
        UdtfOutputRow::Record { fields } => fields.len(),
        UdtfOutputRow::Unwired { .. } => 1,
    }
}

/// There is one column for each name and type of the row, then one hidden column for each
/// parameter.
pub proof fn law_columns_counted(shape: UdtfShape)
    ensures
        visible_types(shape.output_row).len() == visible_names(shape.output_row).len(),
        columns(shape).len() == visible_names(shape.output_row).len() + shape.param_names@.len(),
{
    lemma_hidden_len(
        visible_names(shape.output_row),
        text::strs(shape.param_names@),
        shape.param_names@.len(),
    );
}

proof fn lemma_hidden_len(visible: Seq<Seq<char>>, params: Seq<Seq<char>>, n: nat)
    ensures
        hidden_names(visible, params, n).len() == n,
    decreases n,
{
    if n > 0 {
        lemma_hidden_len(visible, params, (n - 1) as nat);
    }
}

/// Whether the name of parameter `i` is taken, so that another stands in for it.
pub open spec fn replaced_at(visible: Seq<Seq<char>>, params: Seq<Seq<char>>, i: int) -> bool {
    visible.contains(params[i]) || hidden_names(visible, params, i as nat).contains(params[i])
}

/// Whether the name that stands in for that of parameter `i` is borne by a column of the row, or
/// by an earlier parameter that keeps its name.
pub open spec fn stand_in_taken(visible: Seq<Seq<char>>, params: Seq<Seq<char>>, i: int) -> bool {
    visible.contains(arg_name(i as nat)) || exists|k: int|
        0 <= k < i && !replaced_at(visible, params, k) && #[trigger] params[k] == arg_name(
            i as nat,
        )
}

/// No two columns of a schema have one name just where no two columns of the row do, and no name
/// that stands in for a taken one is taken itself.
pub proof fn law_column_names_distinct(shape: UdtfShape)
    ensures
        ({
            let visible = visible_names(shape.output_row);
            let params = text::strs(shape.param_names@);
            column_names(shape).no_duplicates() <==> visible.no_duplicates() && forall|i: int|
                0 <= i < params.len() && #[trigger] replaced_at(visible, params, i)
                    ==> !stand_in_taken(visible, params, i)
        }),
{
    let params = text::strs(shape.param_names@);
    lemma_hidden_distinct(visible_names(shape.output_row), params, params.len());
}

/// The hidden names of fewer parameters are the first of those of more.
proof fn lemma_hidden_prefix(visible: Seq<Seq<char>>, params: Seq<Seq<char>>, m: nat, n: nat)
    requires
        m <= n,
    ensures
        hidden_names(visible, params, n).len() == n,
        hidden_names(visible, params, m) == hidden_names(visible, params, n).take(m as int),
    decreases n,
{
    lemma_hidden_len(visible, params, n);
    lemma_hidden_len(visible, params, m);
    if m < n {
        lemma_hidden_prefix(visible, params, m, (n - 1) as nat);
        assert(hidden_names(visible, params, n).take(m as int) =~= hidden_names(
            visible,
            params,
            (n - 1) as nat,
        ).take(m as int));
    } else {
        assert(hidden_names(visible, params, n).take(m as int) =~= hidden_names(
            visible,
            params,
            n,
        ));
    }
}

/// A hidden column bears its parameter's name, or the one that stands in for it.
proof fn lemma_hidden_at(visible: Seq<Seq<char>>, params: Seq<Seq<char>>, n: nat, k: int)
    requires
        0 <= k < n,
    ensures
        hidden_names(visible, params, n).len() == n,
        hidden_names(visible, params, n)[k] == if replaced_at(visible, params, k) {
            arg_name(k as nat)
        } else {
            params[k]
        },
{
    lemma_hidden_prefix(visible, params, (k + 1) as nat, n);
    lemma_hidden_len(visible, params, k as nat);
    assert(hidden_names(visible, params, (k + 1) as nat)[k] == hidden_names(visible, params, n)[k]);
}

/// The columns of the row come first, under their own names, and one hidden column for each
/// parameter follows, in order. It bears the parameter's name where no column before it does, and
/// otherwise one made of the parameter's position.
pub proof fn law_hidden_columns_named(shape: UdtfShape, k: int)
    requires
        0 <= k < shape.param_names@.len(),
    ensures
        ({
            let names = column_names(shape);
            let row = visible_names(shape.output_row);
            let own = shape.param_names@[k]@;
            let at = row.len() + k;
            &&& names.len() == row.len() + shape.param_names@.len()
            &&& names.take(row.len() as int) == row
            &&& !names.take(at).contains(own) ==> names[at] == own
            &&& names.take(at).contains(own) ==> names[at] == "_arg"@ + words::decimal(k as nat)
        }),
{
    let row = visible_names(shape.output_row);
    let params = text::strs(shape.param_names@);
    let n = params.len();
    lemma_hidden_at(row, params, n, k);
    lemma_hidden_prefix(row, params, k as nat, n);
    let head = hidden_names(row, params, k as nat);
    lemma_contains_either(row, head, params[k]);
    assert(column_names(shape).take(row.len() + k) =~= row + head);
    assert(column_names(shape).take(row.len() as int) =~= row);
}

/// A name that stands in is among the earlier ones just where it is taken.
proof fn lemma_stand_in(visible: Seq<Seq<char>>, params: Seq<Seq<char>>, i: int)
    requires
        0 <= i,
    ensures
        (visible + hidden_names(visible, params, i as nat)).contains(arg_name(i as nat))
            <==> stand_in_taken(visible, params, i),
{
    let head = hidden_names(visible, params, i as nat);
    let name = arg_name(i as nat);
    lemma_hidden_len(visible, params, i as nat);
    lemma_contains_either(visible, head, name);
    if head.contains(name) {
        let k = choose|k: int| 0 <= k < head.len() && head[k] == name;
        lemma_hidden_at(visible, params, i as nat, k);
        if replaced_at(visible, params, k) {
            lemma_arg_names_distinct(k as nat, i as nat);
        }
        assert(params[k] == name);
    }
    if exists|k: int| 0 <= k < i && !replaced_at(visible, params, k) && #[trigger] params[k] == name {
        let k = choose|k: int|
            0 <= k < i && !replaced_at(visible, params, k) && #[trigger] params[k] == name;
        lemma_hidden_at(visible, params, i as nat, k);
        assert(head[k] == name);
    }
}

proof fn lemma_hidden_distinct(visible: Seq<Seq<char>>, params: Seq<Seq<char>>, n: nat)
    requires
        n <= params.len(),
    ensures
        (visible + hidden_names(visible, params, n)).no_duplicates() <==> visible.no_duplicates()
            && forall|i: int|
            0 <= i < n && #[trigger] replaced_at(visible, params, i) ==> !stand_in_taken(
                visible,
                params,
                i,
            ),
    decreases n,
{
    if n == 0 {
        assert(visible + hidden_names(visible, params, 0) =~= visible);
    } else {
        let last = n - 1;
        lemma_hidden_distinct(visible, params, last as nat);
        let head = hidden_names(visible, params, last as nat);
        let all = hidden_names(visible, params, n);
        let before = visible + head;
        let new = all[last];
        lemma_hidden_len(visible, params, last as nat);
        lemma_hidden_at(visible, params, n, last);
        lemma_contains_either(visible, head, params[last]);
        lemma_stand_in(visible, params, last);
        assert(visible + all =~= before.push(new));
        lemma_pushed_distinct(before, new);
        assert(before.contains(new) <==> replaced_at(visible, params, last) && stand_in_taken(
            visible,
            params,
            last,
        ));
    }
}

proof fn lemma_pushed_distinct(s: Seq<Seq<char>>, x: Seq<char>)
    ensures
        s.push(x).no_duplicates() <==> s.no_duplicates() && !s.contains(x),
{
    let all = s.push(x);
    if all.no_duplicates() {
        assert forall|i: int, j: int| 0 <= i < s.len() && 0 <= j < s.len() && i != j implies s[i]
            != s[j] by {
            assert(all[i] == s[i] && all[j] == s[j]);
        }
        if s.contains(x) {
            let k = choose|k: int| 0 <= k < s.len() && s[k] == x;
            assert(all[k] == all[s.len() as int]);
        }
    }
    if s.no_duplicates() && !s.contains(x) {
        assert forall|i: int, j: int| 0 <= i < all.len() && 0 <= j < all.len() && i != j implies all[i]
            != all[j] by {
            if i < s.len() {
                assert(s.contains(s[i]));
            }
            if j < s.len() {
                assert(s.contains(s[j]));
            }
        }
    }
}

proof fn lemma_arg_names_distinct(i: nat, j: nat)
    requires
        arg_name(i) == arg_name(j),
    ensures
        i == j,
{
    let p = "_arg"@;
    assert(words::decimal(i) =~= arg_name(i).subrange(p.len() as int, arg_name(i).len() as int));
    assert(words::decimal(j) =~= arg_name(j).subrange(p.len() as int, arg_name(j).len() as int));
    if i != j {
        words::law_decimal_injective(i, j);
    }
}

} // verus!
