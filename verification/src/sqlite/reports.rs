//! What there is to report of a bridge that was emitted.

use vstd::prelude::*;
use vstd::string::*;

use crate::ir::{RecordType, UnwiredScalar};
use crate::text::{self, fill1, fill2};
use crate::words::{self, decimal_usize, join};

verus! {

pub const UNWIRED_TOTAL: &'static str = "[wasm-target] {total_unwired} symbol(s) not wired (Phase 3):";

pub const UNWIRED_LINE: &'static str = "  - {sql_name}: {reason}";

pub const DIRECT_TOTAL: &'static str = "[wasm-target] wit-value codec short-circuit (#523): {direct}/{total} record(s) decode straight into UPSTREAM (rest keep LOCAL→UPSTREAM ciborium round-trip)";

pub const NOT_DIRECT: &'static str = "  - non-direct: {names}";

/// The line about a function that got no arm.
pub open spec fn unwired_line(u: UnwiredScalar) -> Seq<char> {
    text::fill(UNWIRED_LINE@, seq![("sql_name"@, u.sql_name@), ("reason"@, u.reason@)])
}

/// What is reported of the functions that got no arm: their number, then a line for each;
/// nothing where there are none.
pub open spec fn unwired_lines(all: Seq<UnwiredScalar>) -> Seq<Seq<char>> {
    if all.len() == 0 {
        Seq::empty()
    } else {
        seq![
            text::fill(UNWIRED_TOTAL@, seq![("total_unwired"@, words::decimal(all.len()))]),
        ] + all.map_values(|u: UnwiredScalar| unwired_line(u))
    }
}

/// Lists what is reported of the functions that got no arm.
pub fn report_unwired(all: &Vec<UnwiredScalar>) -> (r: Vec<String>)
    ensures
        text::strs(r@) == unwired_lines(all@),
{
    let mut r: Vec<String> = Vec::new();
    if all.len() == 0 {
        assert(text::strs(r@) =~= Seq::<Seq<char>>::empty());
        return r;
    }
    let total = decimal_usize(all.len());
    r.push(fill1(UNWIRED_TOTAL, "total_unwired", total.as_str()));
    let mut k: usize = 0;
    while k < all.len()
        invariant
            k <= all@.len(),
            all@.len() > 0,
            r@.len() == k + 1,
            forall|j: int| 0 <= j <= k ==> #[trigger] r@[j]@ == unwired_lines(all@)[j],
        decreases all.len() - k,
    {
        r.push(
            fill2(
                UNWIRED_LINE,
                "sql_name",
                all[k].sql_name.as_str(),
                "reason",
                all[k].reason.as_str(),
            ),
        );
        assert(r@[k + 1]@ == unwired_line(all@[k as int]));
        k = k + 1;
    }
    assert(text::strs(r@) =~= unwired_lines(all@));
    r
}

/// The names of those of the first `n` records that are not read straight into the shim's type.
pub open spec fn indirect_names(records: Seq<RecordType>, n: nat) -> Seq<Seq<char>>
    decreases n,
{
    if n == 0 {
        Seq::empty()
    } else {
        let head = indirect_names(records, (n - 1) as nat);
        if records[n - 1].direct {
            head
        } else {
            head.push(records[n - 1].kebab_name@)
        }
    }
}

/// What is reported of the records: how many are read straight into the shim's type, and the
/// names of the others; nothing where there are none.
pub open spec fn direct_lines(records: Seq<RecordType>) -> Seq<Seq<char>> {
    let others = indirect_names(records, records.len());
    if records.len() == 0 {
        Seq::empty()
    } else {
        let head = text::fill(
            DIRECT_TOTAL@,
            seq![
                ("direct"@, words::decimal((records.len() - others.len()) as nat)),
                ("total"@, words::decimal(records.len())),
            ],
        );
        if others.len() == 0 {
            seq![head]
        } else {
            seq![
                head,
                text::fill(NOT_DIRECT@, seq![("names"@, words::joined(others, ", "@))]),
            ]
        }
    }
}

proof fn lemma_indirect_bound(records: Seq<RecordType>, n: nat)
    ensures
        indirect_names(records, n).len() <= n,
    decreases n,
{
    if n > 0 {
        lemma_indirect_bound(records, (n - 1) as nat);
    }
}

/// Lists what is reported of the records.
pub fn report_direct(records: &Vec<RecordType>) -> (r: Vec<String>)
    ensures
        text::strs(r@) == direct_lines(records@),
{
    let mut r: Vec<String> = Vec::new();
    if records.len() == 0 {
        assert(text::strs(r@) =~= Seq::<Seq<char>>::empty());
        return r;
    }
    let mut others: Vec<String> = Vec::new();
    let mut k: usize = 0;
    assert(text::strs(others@) =~= Seq::<Seq<char>>::empty());
    while k < records.len()
        invariant
            k <= records@.len(),
            text::strs(others@) == indirect_names(records@, k as nat),
        decreases records.len() - k,
    {
        if !records[k].direct {
            let ghost was = text::strs(others@);
            others.push(records[k].kebab_name.clone());
            assert(text::strs(others@) =~= was.push(records@[k as int].kebab_name@));
        }
        k = k + 1;
    }
    proof {
        lemma_indirect_bound(records@, records@.len());
        assert(others@.len() == text::strs(others@).len());
    }
    let direct = decimal_usize(records.len() - others.len());
    let total = decimal_usize(records.len());
    r.push(fill2(DIRECT_TOTAL, "direct", direct.as_str(), "total", total.as_str()));
    if others.len() > 0 {
        let names = join(&others, ", ");
        r.push(fill1(NOT_DIRECT, "names", names.as_str()));
    }
    assert(text::strs(r@) =~= direct_lines(records@));
    r
}

} // verus!
