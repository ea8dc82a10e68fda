//! The records and tuples that are found among the parameters and results of functions: each one
//! that an arm reads or makes is found.

use vstd::prelude::*;
use vstd::string::*;

use crate::gather;
use crate::ir::{AccKind, DispatchEntry, ParamShape, RetShape};
use crate::tuples;
use crate::words;

verus! {

/// Whether reading a parameter takes the functions of a record.
pub open spec fn param_names_record(p: ParamShape, name: Seq<char>) -> bool {
    match p {
        ParamShape::WitValueRecord { kebab_name, .. } => kebab_name@ == name,
        ParamShape::ListRecord { kebab_name } => kebab_name@ == name,
        _ => false,
    }
}

/// Whether making a result takes the functions of a record.
pub open spec fn ret_names_record(ret: RetShape, name: Seq<char>) -> bool {
    match ret {
        RetShape::WitValueRecord { kebab_name } => kebab_name@ == name,
        RetShape::OptionWitValueRecord { kebab_name } => kebab_name@ == name,
        RetShape::FirstWitValueRecord { kebab_name } => kebab_name@ == name,
        _ => false,
    }
}

/// Whether accumulating takes the functions of a record: that of its input, or that of its output
/// where it makes records.
pub open spec fn acc_names_record(acc: AccKind, name: Seq<char>) -> bool {
    match acc {
        AccKind::Record { input, output } => input.kebab_name@ == name || output.kebab_name@
            == name,
        AccKind::RecordSetToRecordSet { input, output } => input.kebab_name@ == name
            || output.kebab_name@ == name,
        AccKind::RecordToScalar { input, .. } => input.kebab_name@ == name,
        AccKind::RecordToTuple { input, .. } => input.kebab_name@ == name,
        AccKind::RecordToListPrim { input } => input.kebab_name@ == name,
        AccKind::Geom | AccKind::Raster => false,
    }
}

/// What a list holds, it holds with one more item, and it holds that item.
pub proof fn lemma_pushed(s: Seq<Seq<char>>, x: Seq<char>, y: Seq<char>)
    ensures
        s.push(y).contains(y),
        s.contains(x) ==> s.push(y).contains(x),
        s.push(y).contains(x) ==> s.contains(x) || x == y,
{
    assert(s.push(y)[s.len() as int] == y);
    if s.contains(x) {
        let k = choose|k: int| 0 <= k < s.len() && s[k] == x;
        assert(s.push(y)[k] == x);
    }
    if s.push(y).contains(x) {
        let k = choose|k: int| 0 <= k < s.len() + 1 && s.push(y)[k] == x;
        if k < s.len() {
            assert(s[k] == x);
        }
    }
}

/// The records found among parameters are those found before and those that a parameter names.
pub proof fn law_param_records(
    base: Seq<Seq<char>>,
    params: Seq<ParamShape>,
    n: nat,
    name: Seq<char>,
)
    requires
        n <= params.len(),
    ensures
        gather::with_param_records(base, params, n).contains(name) <==> base.contains(name)
            || exists|k: int| 0 <= k < n && param_names_record(#[trigger] params[k], name),
    decreases n,
{
    if n > 0 {
        law_param_records(base, params, (n - 1) as nat, name);
        let before = gather::with_param_records(base, params, (n - 1) as nat);
        match params[n - 1] {
            ParamShape::WitValueRecord { kebab_name, .. } => {
                lemma_pushed(before, name, kebab_name@);
            },
            ParamShape::ListRecord { kebab_name } => {
                lemma_pushed(before, name, kebab_name@);
            },
            _ => {},
        }
        if exists|k: int| 0 <= k < n && param_names_record(#[trigger] params[k], name) {
            let k = choose|k: int| 0 <= k < n && param_names_record(#[trigger] params[k], name);
            if k < n - 1 {
                assert(param_names_record(params[k], name));
            }
        }
    }
}

/// The record found in a result is the one that it names.
pub proof fn law_ret_record(base: Seq<Seq<char>>, ret: RetShape, name: Seq<char>)
    ensures
        gather::with_ret_record(base, ret).contains(name) <==> base.contains(name)
            || ret_names_record(ret, name),
{
    match ret {
        RetShape::WitValueRecord { kebab_name }
        | RetShape::OptionWitValueRecord { kebab_name }
        | RetShape::FirstWitValueRecord { kebab_name } => lemma_pushed(base, name, kebab_name@),
        _ => {},
    }
}

/// The records found in an accumulation are those that it names.
pub proof fn law_acc_records(base: Seq<Seq<char>>, acc: AccKind, name: Seq<char>)
    ensures
        gather::with_acc_records(base, acc).contains(name) <==> base.contains(name)
            || acc_names_record(acc, name),
{
    match acc {
        AccKind::Record { input, output } => {
            lemma_pushed(base, name, input.kebab_name@);
            lemma_pushed(base.push(input.kebab_name@), name, output.kebab_name@);
        },
        AccKind::RecordSetToRecordSet { input, output } => {
            lemma_pushed(base, name, input.kebab_name@);
            lemma_pushed(base.push(input.kebab_name@), name, output.kebab_name@);
        },
        AccKind::RecordToScalar { input, .. } => lemma_pushed(base, name, input.kebab_name@),
        AccKind::RecordToTuple { input, .. } => lemma_pushed(base, name, input.kebab_name@),
        AccKind::RecordToListPrim { input } => lemma_pushed(base, name, input.kebab_name@),
        _ => {},
    }
}

/// Whether a scalar takes the functions of a record.
pub open spec fn scalar_names_record(e: (DispatchEntry, bool), name: Seq<char>) -> bool {
    ret_names_record(e.0.shape.ret, name) || exists|j: int|
        0 <= j < e.0.shape.params@.len() && param_names_record(
            #[trigger] e.0.shape.params@[j],
            name,
        )
}

/// The records found in scalars are those that one of them names, as a parameter or as a result.
pub proof fn law_scalar_records(entries: Seq<(DispatchEntry, bool)>, n: nat, name: Seq<char>)
    requires
        n <= entries.len(),
    ensures
        gather::scalar_records(entries, n).contains(name) <==> exists|k: int|
            0 <= k < n && scalar_names_record(#[trigger] entries[k], name),
    decreases n,
{
    if n > 0 {
        law_scalar_records(entries, (n - 1) as nat, name);
        let shape = entries[n - 1].0.shape;
        let before = gather::scalar_records(entries, (n - 1) as nat);
        let params = shape.params@;
        law_param_records(before, params, params.len(), name);
        law_ret_record(
            gather::with_param_records(before, params, params.len()),
            shape.ret,
            name,
        );
        if gather::scalar_records(entries, n).contains(name) && !before.contains(name) {
            assert(scalar_names_record(entries[n - 1], name));
        }
        if exists|k: int| 0 <= k < n && scalar_names_record(#[trigger] entries[k], name) {
            let k = choose|k: int| 0 <= k < n && scalar_names_record(#[trigger] entries[k], name);
            if k < n - 1 {
                assert(scalar_names_record(entries[k], name));
            }
        }
    }
}

/// Whether a parameter is a list of tuples of these elements.
pub open spec fn param_has_tuple(p: ParamShape, sig: Seq<char>) -> bool {
    p matches ParamShape::ListTuple { elements } && tuples::signature(elements@) == sig
}

/// The tuples found among parameters are those found before and those of a parameter.
pub proof fn law_param_tuples(base: Seq<Seq<char>>, params: Seq<ParamShape>, n: nat, sig: Seq<char>)
    requires
        n <= params.len(),
    ensures
        gather::with_signatures(base, params, n).contains(sig) <==> base.contains(sig) || exists|
            k: int,
        |
            0 <= k < n && param_has_tuple(#[trigger] params[k], sig),
    decreases n,
{
    if n > 0 {
        law_param_tuples(base, params, (n - 1) as nat, sig);
        let before = gather::with_signatures(base, params, (n - 1) as nat);
        match params[n - 1] {
            ParamShape::ListTuple { elements } => lemma_pushed(
                before,
                sig,
                tuples::signature(elements@),
            ),
            _ => {},
        }
        if exists|k: int| 0 <= k < n && param_has_tuple(#[trigger] params[k], sig) {
            let k = choose|k: int| 0 <= k < n && param_has_tuple(#[trigger] params[k], sig);
            if k < n - 1 {
                assert(param_has_tuple(params[k], sig));
            }
        }
    }
}

/// The tuples found in scalars are those of a parameter of one of them.
pub proof fn law_scalar_tuples(entries: Seq<(DispatchEntry, bool)>, n: nat, sig: Seq<char>)
    requires
        n <= entries.len(),
    ensures
        gather::scalar_signatures(entries, n).contains(sig) <==> exists|k: int, j: int|
            0 <= k < n && 0 <= j < entries[k].0.shape.params@.len() && param_has_tuple(
                #[trigger] entries[k].0.shape.params@[j],
                sig,
            ),
    decreases n,
{
    if n > 0 {
        law_scalar_tuples(entries, (n - 1) as nat, sig);
        let params = entries[n - 1].0.shape.params@;
        let before = gather::scalar_signatures(entries, (n - 1) as nat);
        law_param_tuples(before, params, params.len(), sig);
        if gather::scalar_signatures(entries, n).contains(sig) && !before.contains(sig) {
            let j = choose|j: int|
                0 <= j < params.len() && param_has_tuple(#[trigger] params[j], sig);
            assert(param_has_tuple(entries[n - 1].0.shape.params@[j], sig));
        }
        if exists|k: int, j: int|
            0 <= k < n && 0 <= j < entries[k].0.shape.params@.len() && param_has_tuple(
                #[trigger] entries[k].0.shape.params@[j],
                sig,
            ) {
            let (k, j) = choose|k: int, j: int|
                0 <= k < n && 0 <= j < entries[k].0.shape.params@.len() && param_has_tuple(
                    #[trigger] entries[k].0.shape.params@[j],
                    sig,
                );
            if k < n - 1 {
                assert(param_has_tuple(entries[k].0.shape.params@[j], sig));
            } else {
                assert(param_has_tuple(params[j], sig));
            }
        }
    }
}

proof fn lemma_tuple_helpers_stand(template: Seq<char>, sigs: Seq<Seq<char>>, n: nat, k: int)
    requires
        0 <= k < n <= sigs.len(),
    ensures
        words::has_piece(
            gather::tuple_helpers(template, sigs, n),
            gather::tuple_helper(
                template,
                tuples::tuple_suffix(tuples::elements_of(sigs[k])),
                tuples::rust_types(tuples::elements_of(sigs[k])),
                tuples::wit_types(tuples::elements_of(sigs[k])),
            ),
        ),
    decreases n,
{
    let before = gather::tuple_helpers(template, sigs, (n - 1) as nat);
    let elements = tuples::elements_of(sigs[n - 1]);
    let last = gather::tuple_helper(
        template,
        tuples::tuple_suffix(elements),
        tuples::rust_types(elements),
        tuples::wit_types(elements),
    );
    if k == n - 1 {
        words::lemma_piece_added(before, last);
    } else {
        lemma_tuple_helpers_stand(template, sigs, (n - 1) as nat, k);
        words::lemma_pieces_kept(before, last);
    }
}

/// Every list of tuples that was found has its helper, made for its elements.
pub proof fn law_tuple_helpers_stand(
    header: Seq<char>,
    template: Seq<char>,
    sigs: Seq<Seq<char>>,
    k: int,
)
    requires
        0 <= k < sigs.len(),
    ensures
        words::has_piece(
            gather::tuple_helpers_block(header, template, sigs),
            gather::tuple_helper(
                template,
                tuples::tuple_suffix(tuples::elements_of(sigs[k])),
                tuples::rust_types(tuples::elements_of(sigs[k])),
                tuples::wit_types(tuples::elements_of(sigs[k])),
            ),
        ),
{
    lemma_tuple_helpers_stand(template, sigs, sigs.len(), k);
    words::lemma_pieces_moved(header, gather::tuple_helpers(template, sigs, sigs.len()));
}

} // verus!
