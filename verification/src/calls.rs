//! Calls of the functions behind a bridge: the arguments that are handed on, and the
//! expression of the call.

use vstd::prelude::*;
use vstd::string::*;

use crate::ir::{DispatchShape, ParamShape};
use crate::text::{self, cat, cat3, fill2, fill3, fill5};
use crate::words::{self, decimal_usize, join, kebab_to_pascal};

verus! {

/// The match arm from a number to a case. A name in braces is a hole.
pub const ENUM_ARM: &'static str = "{i}    {n} => {wit_module}::{type_pascal}::{case_pascal},\n";

/// The match arm from a case to its number.
pub const CASE_ARM: &'static str = "{i}        {wit_module}::{type_pascal}::{case_pascal} => {n},\n";

/// The call of a resource's constructor.
pub const CALL_CONSTRUCTOR: &'static str = "{pascal}::new({call_args_str})";

/// The call of a resource's method.
pub const CALL_METHOD: &'static str = "{recv}.{func}({rest})";

/// The call of a module's function.
pub const CALL_FUNCTION: &'static str = "{module}::{func}({call_args_str})";

/// The match arms from the first `n` case numbers to the cases of an enum.
pub open spec fn enum_arms(
    i: Seq<char>,
    wit_module: Seq<char>,
    kebab_name: Seq<char>,
    cases: Seq<String>,
    n: nat,
) -> Seq<char>
    decreases n,
{
    if n == 0 {
        Seq::empty()
    } else {
        enum_arms(i, wit_module, kebab_name, cases, (n - 1) as nat) + text::fill(
            ENUM_ARM@,
            seq![
                ("i"@, i),
                ("n"@, words::decimal((n - 1) as nat)),
                ("wit_module"@, wit_module),
                ("type_pascal"@, words::pascal(kebab_name, false)),
                ("case_pascal"@, words::pascal(cases[n - 1]@, false)),
            ],
        )
    }
}

/// Writes the arms that turn numbers into the cases of an enum.
pub fn render_enum_arms(
    i: &str,
    wit_module: &str,
    kebab_name: &str,
    cases: &Vec<String>,
) -> (r: String)
    ensures
        r@ == enum_arms(i@, wit_module@, kebab_name@, cases@, cases@.len()),
{
    let type_pascal = kebab_to_pascal(kebab_name);
    let mut arms = String::new();
    let mut n: usize = 0;
    while n < cases.len()
        invariant
            n <= cases@.len(),
            type_pascal@ == words::pascal(kebab_name@, false),
            arms@ == enum_arms(i@, wit_module@, kebab_name@, cases@, n as nat),
        decreases cases.len() - n,
    {
        let number = decimal_usize(n);
        let case_pascal = kebab_to_pascal(cases[n].as_str());
        let arm = fill5(
            ENUM_ARM,
            "i",
            i,
            "n",
            number.as_str(),
            "wit_module",
            wit_module,
            "type_pascal",
            type_pascal.as_str(),
            "case_pascal",
            case_pascal.as_str(),
        );
        arms.append(arm.as_str());
        n = n + 1;
    }
    arms
}

/// Whether an argument is handed to the function by value.
pub open spec fn by_value(p: ParamShape) -> bool {
    match p {
        ParamShape::Text
        | ParamShape::F64
        | ParamShape::S32
        | ParamShape::S64
        | ParamShape::U32
        | ParamShape::U64
        | ParamShape::Bool
        | ParamShape::Blob
        | ParamShape::Enum { .. } => true,
        ParamShape::WitValueRecord { kebab_name, upstream_by_value } => upstream_by_value,
        _ => false,
    }
}

/// Whether the function takes the argument by value.
pub fn is_by_value(p: &ParamShape) -> (r: bool)
    ensures
        r == by_value(*p),
{
    match p {
        ParamShape::Text
        | ParamShape::F64
        | ParamShape::S32
        | ParamShape::S64
        | ParamShape::U32
        | ParamShape::U64
        | ParamShape::Bool
        | ParamShape::Blob
        | ParamShape::Enum { .. } => true,
        ParamShape::WitValueRecord { kebab_name: _, upstream_by_value } => *upstream_by_value,
        _ => false,
    }
}

/// The expression that hands argument `idx` to the function.
pub open spec fn call_arg(p: ParamShape, idx: nat) -> Seq<char> {
    if p is OptionNone {
        "None"@
    } else if by_value(p) {
        "arg"@ + words::decimal(idx)
    } else {
        "&arg"@ + words::decimal(idx)
    }
}

/// Writes the expression that hands argument `idx` to the function.
pub fn render_call_arg(p: &ParamShape, idx: usize) -> (r: String)
    ensures
        r@ == call_arg(*p, idx as nat),
{
    let n = decimal_usize(idx);
    if let ParamShape::OptionNone = p {
        "None".to_owned()
    } else if is_by_value(p) {
        cat("arg", n.as_str())
    } else {
        cat("&arg", n.as_str())
    }
}

/// The expressions that hand the arguments to the function.
pub open spec fn call_args(params: Seq<ParamShape>) -> Seq<Seq<char>> {
    Seq::new(params.len(), |k: int| call_arg(params[k], k as nat))
}

/// `s` without the `&` signs that it begins with.
pub open spec fn without_refs(s: Seq<char>) -> Seq<char>
    decreases s.len(),
{
    if s.len() > 0 && s[0] == '&' {
        without_refs(s.skip(1))
    } else {
        s
    }
}

/// Cuts off the `&` signs that `s` begins with.
pub fn trim_refs(s: &str) -> (r: String)
    ensures
        r@ == without_refs(s@),
{
    let cs = text::chars_of(s);
    let mut k: usize = 0;
    assert(s@.skip(0) =~= s@);
    while k < cs.len() && cs[k] == '&'
        invariant
            k <= cs@.len(),
            cs@ == s@,
            without_refs(s@) == without_refs(s@.skip(k as int)),
        decreases cs.len() - k,
    {
        assert(s@.skip(k as int).skip(1) =~= s@.skip(k + 1));
        k = k + 1;
    }
    assert(s@.skip(k as int) =~= s@.subrange(k as int, s@.len() as int));
    words::text_of_range(&cs, k, cs.len())
}

/// The expression that calls the function behind a scalar: a constructor of a resource, a
/// method on the first argument, or a function of a module.
pub open spec fn call_expr(shape: DispatchShape) -> Seq<char> {
    let args = call_args(shape.params@);
    match shape.method_call {
        Some(mc) => if mc.is_constructor {
            text::fill(
                CALL_CONSTRUCTOR@,
                seq![
                    ("pascal"@, words::pascal(mc.resource_kebab@, false)),
                    ("call_args_str"@, words::joined(args, ", "@)),
                ],
            )
        } else {
            text::fill(
                CALL_METHOD@,
                seq![
                    (
                        "recv"@,
                        if args.len() > 0 {
                            without_refs(args[0])
                        } else {
                            "arg0"@
                        },
                    ),
                    ("func"@, shape.wit_func@),
                    (
                        "rest"@,
                        if args.len() > 0 {
                            words::joined(args.skip(1), ", "@)
                        } else {
                            Seq::empty()
                        },
                    ),
                ],
            )
        },
        None => text::fill(
            CALL_FUNCTION@,
            seq![
                ("module"@, shape.wit_module@),
                ("func"@, shape.wit_func@),
                ("call_args_str"@, words::joined(args, ", "@)),
            ],
        ),
    }
}

/// Lists the expressions that hand the arguments from `from` on to the function.
pub fn list_call_args(params: &Vec<ParamShape>, from: usize) -> (r: Vec<String>)
    requires
        from <= params@.len(),
    ensures
        text::strs(r@) == call_args(params@).skip(from as int),
{
    let mut r: Vec<String> = Vec::new();
    let mut k: usize = from;
    while k < params.len()
        invariant
            from <= k <= params@.len(),
            r@.len() == k - from,
            forall|j: int|
                0 <= j < r@.len() ==> #[trigger] r@[j]@ == call_arg(
                    params@[from + j],
                    (from + j) as nat,
                ),
        decreases params.len() - k,
    {
        r.push(render_call_arg(&params[k], k));
        k = k + 1;
    }
    assert(text::strs(r@) =~= call_args(params@).skip(from as int));
    r
}

/// Writes the call of the function.
pub fn render_call_expr(shape: &DispatchShape) -> (r: String)
    ensures
        r@ == call_expr(*shape),
{
    let args = list_call_args(&shape.params, 0);
    assert(call_args(shape.params@).skip(0) =~= call_args(shape.params@));
    let all = join(&args, ", ");
    match &shape.method_call {
        Some(mc) => {
            if mc.is_constructor {
                let pascal = kebab_to_pascal(mc.resource_kebab.as_str());
                fill2(
                    CALL_CONSTRUCTOR,
                    "pascal",
                    pascal.as_str(),
                    "call_args_str",
                    all.as_str(),
                )
            } else if args.len() > 0 {
                let recv = trim_refs(args[0].as_str());
                let others = list_call_args(&shape.params, 1);
                let rest = join(&others, ", ");
                fill3(
                    CALL_METHOD,
                    "recv",
                    recv.as_str(),
                    "func",
                    shape.wit_func.as_str(),
                    "rest",
                    rest.as_str(),
                )
            } else {
                let rest = String::new();
                fill3(
                    CALL_METHOD,
                    "recv",
                    "arg0",
                    "func",
                    shape.wit_func.as_str(),
                    "rest",
                    rest.as_str(),
                )
            }
        },
        None => fill3(
            CALL_FUNCTION,
            "module",
            shape.wit_module.as_str(),
            "func",
            shape.wit_func.as_str(),
            "call_args_str",
            all.as_str(),
        ),
    }
}

/// The match arms from the first `n` cases of an enum to their numbers.
pub open spec fn case_arms(
    i: Seq<char>,
    wit_module: Seq<char>,
    kebab_name: Seq<char>,
    cases: Seq<String>,
    n: nat,
) -> Seq<char>
    decreases n,
{
    if n == 0 {
        Seq::empty()
    } else {
        case_arms(i, wit_module, kebab_name, cases, (n - 1) as nat) + text::fill(
            CASE_ARM@,
            seq![
                ("i"@, i),
                ("n"@, words::decimal((n - 1) as nat)),
                ("wit_module"@, wit_module),
                ("type_pascal"@, words::pascal(kebab_name, false)),
                ("case_pascal"@, words::pascal(cases[n - 1]@, false)),
            ],
        )
    }
}

/// Writes the arms that turn the cases of an enum into numbers.
pub fn render_case_arms(
    i: &str,
    wit_module: &str,
    kebab_name: &str,
    cases: &Vec<String>,
) -> (r: String)
    ensures
        r@ == case_arms(i@, wit_module@, kebab_name@, cases@, cases@.len()),
{
    let type_pascal = kebab_to_pascal(kebab_name);
    let mut arms = String::new();
    let mut n: usize = 0;
    while n < cases.len()
        invariant
            n <= cases@.len(),
            type_pascal@ == words::pascal(kebab_name@, false),
            arms@ == case_arms(i@, wit_module@, kebab_name@, cases@, n as nat),
        decreases cases.len() - n,
    {
        let number = decimal_usize(n);
        let case_pascal = kebab_to_pascal(cases[n].as_str());
        let arm = fill5(
            CASE_ARM,
            "i",
            i,
            "n",
            number.as_str(),
            "wit_module",
            wit_module,
            "type_pascal",
            type_pascal.as_str(),
            "case_pascal",
            case_pascal.as_str(),
        );
        arms.append(arm.as_str());
        n = n + 1;
    }
    arms
}

/// Whether an aggregate can take an extra argument of this shape.
pub open spec fn extra_wired(p: ParamShape) -> bool {
    match p {
        ParamShape::Text
        | ParamShape::F64
        | ParamShape::S32
        | ParamShape::S64
        | ParamShape::U32
        | ParamShape::U64
        | ParamShape::Bool
        | ParamShape::Blob
        | ParamShape::OptionNone => true,
        _ => false,
    }
}

/// Whether a constant argument of an aggregate can be read.
pub fn is_extra_wired(p: &ParamShape) -> (r: bool)
    ensures
        r == extra_wired(*p),
{
    match p {
        ParamShape::Text
        | ParamShape::F64
        | ParamShape::S32
        | ParamShape::S64
        | ParamShape::U32
        | ParamShape::U64
        | ParamShape::Bool
        | ParamShape::Blob
        | ParamShape::OptionNone => true,
        _ => false,
    }
}

/// The position of the first extra argument, at `k` or later, of a shape that aggregates do
/// not take, or the number of extra arguments.
pub open spec fn unwired_extra_from(extras: Seq<ParamShape>, k: int) -> int
    decreases extras.len() - k,
{
    if k >= extras.len() || !extra_wired(extras[k]) {
        k
    } else {
        unwired_extra_from(extras, k + 1)
    }
}

/// Finds the first constant argument that cannot be read, or gives their number.
pub fn find_unwired_extra(extras: &Vec<ParamShape>) -> (r: usize)
    ensures
        r <= extras@.len(),
        r == unwired_extra_from(extras@, 0),
{
    let mut k: usize = 0;
    while k < extras.len() && is_extra_wired(&extras[k])
        invariant
            k <= extras@.len(),
            unwired_extra_from(extras@, 0) == unwired_extra_from(extras@, k as int),
        decreases extras.len() - k,
    {
        k = k + 1;
    }
    k
}

/// The expressions that hand the extra arguments to the function.
pub open spec fn call_extras(extras: Seq<ParamShape>, prefix: Seq<char>) -> Seq<Seq<char>> {
    Seq::new(
        extras.len(),
        |j: int|
            if extras[j] is OptionNone {
                "None"@
            } else {
                prefix + words::decimal(j as nat)
            },
    )
}

/// Lists the expressions that hand the constant arguments to the function.
pub fn list_call_extras(extras: &Vec<ParamShape>, prefix: &str) -> (r: Vec<String>)
    ensures
        text::strs(r@) == call_extras(extras@, prefix@),
{
    let mut r: Vec<String> = Vec::new();
    let mut j: usize = 0;
    while j < extras.len()
        invariant
            j <= extras@.len(),
            r@.len() == j,
            forall|k: int|
                0 <= k < j ==> #[trigger] text::strs(r@)[k] == call_extras(extras@, prefix@)[k],
        decreases extras.len() - j,
    {
        let ghost was = text::strs(r@);
        if let ParamShape::OptionNone = &extras[j] {
            r.push("None".to_owned());
        } else {
            let number = decimal_usize(j);
            r.push(cat(prefix, number.as_str()));
        }
        assert forall|k: int| 0 <= k < j implies #[trigger] text::strs(r@)[k] == was[k] by {}
        j = j + 1;
    }
    assert(text::strs(r@) =~= call_extras(extras@, prefix@));
    r
}

/// The arguments of an aggregate's call: what was accumulated, then the extra arguments.
pub open spec fn accumulated_args(acc: Seq<char>, extras: Seq<ParamShape>) -> Seq<char> {
    if extras.len() == 0 {
        acc
    } else {
        acc + ", "@ + words::joined(call_extras(extras, "extra"@), ", "@)
    }
}

/// Writes the arguments of a call on what was accumulated.
pub fn render_accumulated_args(acc: &str, extras: &Vec<ParamShape>) -> (r: String)
    ensures
        r@ == accumulated_args(acc@, extras@),
{
    if extras.len() == 0 {
        acc.to_owned()
    } else {
        let list = list_call_extras(extras, "extra");
        let rest = join(&list, ", ");
        cat3(acc, ", ", rest.as_str())
    }
}

} // verus!
