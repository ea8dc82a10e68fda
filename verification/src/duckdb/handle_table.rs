//! The tables of a bridge crate from handles to dispatch arms, one for each family.

use vstd::prelude::*;
use vstd::string::*;

use crate::words;

verus! {

pub const TABLES_START: &'static str = r#"// ─── Handle tables (u32 -> arm-index, one per dispatch family) ───
//
// `register_scalars()` / `register_aggregates()` / `register_tables()`
// allocate one handle per registration and store its arm index in the
// family-specific table. The corresponding `call_*` dispatch arm
// looks up the index and routes to the per-arm match.

"#;

pub const TABLE_BODY: &'static str = r#" -> &'static std::sync::Mutex<std::collections::HashMap<u32, usize>> {
    static T: std::sync::OnceLock<
        std::sync::Mutex<std::collections::HashMap<u32, usize>>,
    > = std::sync::OnceLock::new();
    T.get_or_init(|| std::sync::Mutex::new(std::collections::HashMap::new()))
}

"#;

pub const COUNTER: &'static str = r#"static NEXT_HANDLE: std::sync::atomic::AtomicU32 =
    std::sync::atomic::AtomicU32::new(1);

"#;

/// The families of functions, each with handles of its own.
pub enum Family {
    Scalar,
    Aggregate,
    Table,
    Window,
}

/// The call that gives the table of a family.
pub open spec fn lookup(family: Family) -> Seq<char> {
    match family {
        Family::Scalar => "handle_table()"@,
        Family::Aggregate => "aggregate_handle_table()"@,
        Family::Table => "table_handle_table()"@,
        Family::Window => "window_handle_table()"@,
    }
}

/// Writes the call that gives the table of a family.
pub fn pick_lookup(family: Family) -> (r: &'static str)
    ensures
        r@ == lookup(family),
{
    match family {
        Family::Scalar => "handle_table()",
        Family::Aggregate => "aggregate_handle_table()",
        Family::Table => "table_handle_table()",
        Family::Window => "window_handle_table()",
    }
}

/// The function that gives the table of a family.
pub open spec fn definition(family: Family) -> Seq<char> {
    "fn "@ + lookup(family) + TABLE_BODY@
}

fn push_definition(out: &mut String, family: Family)
    ensures
        final(out)@ == old(out)@ + definition(family),
{
    let ghost base = out@;
    let call = pick_lookup(family);
    out.append("fn ");
    out.append(call);
    out.append(TABLE_BODY);
    assert(out@ =~= base + definition(family));
}

/// The handle tables and the counter that handles are taken from.
pub open spec fn tables() -> Seq<char> {
    TABLES_START@ + definition(Family::Scalar) + definition(Family::Aggregate) + definition(
        Family::Table,
    ) + definition(Family::Window) + COUNTER@
}

/// Writes the handle tables.
pub fn render() -> (r: String)
    ensures
        r@ == tables(),
{
    let mut s = TABLES_START.to_owned();
    push_definition(&mut s, Family::Scalar);
    push_definition(&mut s, Family::Aggregate);
    push_definition(&mut s, Family::Table);
    push_definition(&mut s, Family::Window);
    s.append(COUNTER);
    s
}

/// The table of each family is defined.
pub proof fn law_table_defined(family: Family)
    ensures
        words::has_piece(tables(), definition(family)),
{
    let scalar = TABLES_START@ + definition(Family::Scalar);
    let aggregate = scalar + definition(Family::Aggregate);
    let table = aggregate + definition(Family::Table);
    let window = table + definition(Family::Window);
    let piece = definition(family);
    match family {
        Family::Scalar => {
            words::lemma_piece_added(TABLES_START@, piece);
            words::lemma_piece_kept(scalar, definition(Family::Aggregate), piece);
            words::lemma_piece_kept(aggregate, definition(Family::Table), piece);
            words::lemma_piece_kept(table, definition(Family::Window), piece);
        },
        Family::Aggregate => {
            words::lemma_piece_added(scalar, piece);
            words::lemma_piece_kept(aggregate, definition(Family::Table), piece);
            words::lemma_piece_kept(table, definition(Family::Window), piece);
        },
        Family::Table => {
            words::lemma_piece_added(aggregate, piece);
            words::lemma_piece_kept(table, definition(Family::Window), piece);
        },
        Family::Window => {
            words::lemma_piece_added(table, piece);
        },
    }
    words::lemma_piece_kept(window, COUNTER@, piece);
}

/// Each family has a handle table of its own.
pub proof fn law_tables_apart(a: Family, b: Family)
    requires
        a != b,
    ensures
        lookup(a) != lookup(b),
{
    reveal_strlit("handle_table()");
    reveal_strlit("aggregate_handle_table()");
    reveal_strlit("table_handle_table()");
    reveal_strlit("window_handle_table()");
    assert(lookup(Family::Scalar).len() == 14);
    assert(lookup(Family::Aggregate).len() == 24);
    assert(lookup(Family::Table).len() == 20);
    assert(lookup(Family::Window).len() == 21);
}

} // verus!
