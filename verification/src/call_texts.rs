//! What the calls of the functions behind a bridge say: which function is called, with which
//! arguments, and how the cases of an enum are numbered.

use vstd::prelude::*;
use vstd::string::*;

use crate::calls;
use crate::ir::{DispatchShape, ParamShape};
use crate::text;
use crate::words;

verus! {

/// A number, a text, bytes and a case of an enum are handed over by value, a record by value or
/// by reference as its function takes it, resources and lists by reference, and an option that
/// is never given as `None`.
pub proof fn law_arguments_handed_over(p: ParamShape, idx: nat)
    ensures
        ({
            let value = "arg"@ + words::decimal(idx);
            let reference = "&arg"@ + words::decimal(idx);
            calls::call_arg(p, idx) == match p {
                ParamShape::Text
                | ParamShape::F64
                | ParamShape::S32
                | ParamShape::S64
                | ParamShape::U32
                | ParamShape::U64
                | ParamShape::Bool
                | ParamShape::Blob
                | ParamShape::Enum { .. } => value,
                ParamShape::WitValueRecord { kebab_name, upstream_by_value } => if upstream_by_value {
                    value
                } else {
                    reference
                },
                ParamShape::Geom
                | ParamShape::Geog
                | ParamShape::Raster
                | ParamShape::Topology
                | ParamShape::ListGeom
                | ParamShape::ListRecord { .. }
                | ParamShape::ListPrim(_)
                | ParamShape::ListTuple { .. }
                | ParamShape::ListTupleMixed { .. }
                | ParamShape::ListListU8
                | ParamShape::ListListPrim(_)
                | ParamShape::ListListRecord { .. } => reference,
                ParamShape::OptionNone => "None"@,
            }
        }),
{
}

/// The call names the function of the shape and hands over all arguments in their order: to a
/// function of a module or to the constructor of a resource between brackets; a method is called
/// on the first argument, with the others between brackets.
pub proof fn law_call_names_function(shape: DispatchShape, args: Seq<Seq<char>>)
    requires
        args.len() == shape.params@.len(),
        forall|k: int|
            0 <= k < args.len() ==> #[trigger] args[k] == calls::call_arg(
                shape.params@[k],
                k as nat,
            ),
    ensures
        match shape.method_call {
            None => calls::call_expr(shape) == shape.wit_module@ + "::"@ + shape.wit_func@ + "("@
                + words::joined(args, ", "@) + ")"@,
            Some(mc) => if mc.is_constructor {
                calls::call_expr(shape) == words::pascal(mc.resource_kebab@, false) + "::new("@
                    + words::joined(args, ", "@) + ")"@
            } else if args.len() == 0 {
                calls::call_expr(shape) == "arg0."@ + shape.wit_func@ + "()"@
            } else if shape.params@[0] is OptionNone {
                calls::call_expr(shape) == "None."@ + shape.wit_func@ + "("@ + words::joined(
                    args.skip(1),
                    ", "@,
                ) + ")"@
            } else {
                calls::call_expr(shape) == "arg0."@ + shape.wit_func@ + "("@ + words::joined(
                    args.skip(1),
                    ", "@,
                ) + ")"@
            },
        },
{
    let all = calls::call_args(shape.params@);
    assert(all =~= args);
    let joined = words::joined(args, ", "@);
    match shape.method_call {
        None => lemma_call_function(shape.wit_module@, shape.wit_func@, joined),
        Some(mc) => if mc.is_constructor {
            lemma_call_constructor(words::pascal(mc.resource_kebab@, false), joined);
        } else if args.len() == 0 {
            lemma_call_method("arg0"@, shape.wit_func@, Seq::empty());
            reveal_strlit("arg0");
            reveal_strlit("arg0.");
            reveal_strlit(".");
            reveal_strlit("(");
            reveal_strlit(")");
            reveal_strlit("()");
            assert("arg0"@ + "."@ =~= "arg0."@);
            assert("("@ + Seq::<char>::empty() + ")"@ =~= "()"@);
            assert(calls::call_expr(shape) =~= "arg0."@ + shape.wit_func@ + "()"@);
        } else {
            let rest = words::joined(args.skip(1), ", "@);
            lemma_call_method(calls::without_refs(args[0]), shape.wit_func@, rest);
            lemma_receiver(shape.params@[0]);
            reveal_strlit("arg0");
            reveal_strlit("arg0.");
            reveal_strlit("None");
            reveal_strlit("None.");
            reveal_strlit(".");
            assert("arg0"@ + "."@ =~= "arg0."@);
            assert("None"@ + "."@ =~= "None."@);
        },
    }
}

/// Without its reference sign, the first argument is `arg0`.
proof fn lemma_receiver(p: ParamShape)
    ensures
        p is OptionNone ==> calls::without_refs(calls::call_arg(p, 0)) == "None"@,
        !(p is OptionNone) ==> calls::without_refs(calls::call_arg(p, 0)) == "arg0"@,
{
    reveal_strlit("None");
    reveal_strlit("arg");
    reveal_strlit("&arg");
    reveal_strlit("arg0");
    reveal_with_fuel(calls::without_refs, 3);
    let d = words::decimal(0);
    assert(d =~= seq!['0']);
    assert("arg"@ + d =~= "arg0"@);
    assert(("&arg"@ + d).skip(1) =~= "arg0"@);
}

/// Case `k` of an enum has the number `k`, where numbers are read and where they are given.
pub proof fn law_cases_numbered(
    i: Seq<char>,
    wit_module: Seq<char>,
    kebab_name: Seq<char>,
    cases: Seq<String>,
    n: nat,
    k: int,
)
    requires
        0 <= k < n <= cases.len(),
    ensures
        ({
            let case = wit_module + "::"@ + words::pascal(kebab_name, false) + "::"@
                + words::pascal(cases[k]@, false);
            let d = words::decimal(k as nat);
            &&& words::has_piece(
                calls::enum_arms(i, wit_module, kebab_name, cases, n),
                d + " => "@ + case + ",\n"@,
            )
            &&& words::has_piece(
                calls::case_arms(i, wit_module, kebab_name, cases, n),
                case + " => "@ + d + ",\n"@,
            )
        }),
    decreases n,
{
    let m = (n - 1) as nat;
    let before = calls::enum_arms(i, wit_module, kebab_name, cases, m);
    let before_case = calls::case_arms(i, wit_module, kebab_name, cases, m);
    let name = words::pascal(kebab_name, false);
    let last = words::pascal(cases[n - 1]@, false);
    let d = words::decimal(m);
    lemma_enum_arm(i, d, wit_module, name, last);
    lemma_case_arm(i, d, wit_module, name, last);
    let arm = text::fill(
        calls::ENUM_ARM@,
        seq![
            ("i"@, i),
            ("n"@, d),
            ("wit_module"@, wit_module),
            ("type_pascal"@, name),
            ("case_pascal"@, last),
        ],
    );
    let case_arm = text::fill(
        calls::CASE_ARM@,
        seq![
            ("i"@, i),
            ("n"@, d),
            ("wit_module"@, wit_module),
            ("type_pascal"@, name),
            ("case_pascal"@, last),
        ],
    );
    if k == n - 1 {
        let case = wit_module + "::"@ + name + "::"@ + last;
        let forth = d + " => "@ + case + ",\n"@;
        let back = case + " => "@ + d + ",\n"@;
        assert(arm =~= (i + "    "@) + (forth + Seq::<char>::empty()));
        assert(case_arm =~= (i + "        "@) + (back + Seq::<char>::empty()));
        words::lemma_piece_between(i + "    "@, forth, Seq::empty());
        words::lemma_piece_between(i + "        "@, back, Seq::empty());
        words::lemma_pieces_moved(before, arm);
        words::lemma_pieces_moved(before_case, case_arm);
    } else {
        law_cases_numbered(i, wit_module, kebab_name, cases, m, k);
        words::lemma_pieces_kept(before, arm);
        words::lemma_pieces_kept(before_case, case_arm);
    }
}

proof fn lemma_holes_pascal_call_args_str(pascal: Seq<char>, call_args_str: Seq<char>)
    ensures
        ({
            let b = seq![("pascal"@, pascal), ("call_args_str"@, call_args_str)];
            &&& text::lookup_from(b, "pascal"@, 0) == pascal
            &&& text::lookup_from(b, "call_args_str"@, 0) == call_args_str
        }),
{
    reveal_strlit("pascal");
    reveal_strlit("call_args_str");
    reveal_with_fuel(text::lookup_from, 3);
    assert("pascal"@.len() != "call_args_str"@.len());
}

proof fn lemma_holes_recv_func_rest(recv: Seq<char>, func: Seq<char>, rest: Seq<char>)
    ensures
        ({
            let b = seq![("recv"@, recv), ("func"@, func), ("rest"@, rest)];
            &&& text::lookup_from(b, "recv"@, 0) == recv
            &&& text::lookup_from(b, "func"@, 0) == func
            &&& text::lookup_from(b, "rest"@, 0) == rest
        }),
{
    reveal_strlit("recv");
    reveal_strlit("func");
    reveal_strlit("rest");
    reveal_with_fuel(text::lookup_from, 4);
    assert("recv"@[0] != "func"@[0]);
    assert("recv"@[2] != "rest"@[2]);
    assert("func"@[0] != "rest"@[0]);
}

proof fn lemma_holes_module_func_call_args_str(
    module: Seq<char>,
    func: Seq<char>,
    call_args_str: Seq<char>,
)
    ensures
        ({
            let b = seq![("module"@, module), ("func"@, func), ("call_args_str"@, call_args_str)];
            &&& text::lookup_from(b, "module"@, 0) == module
            &&& text::lookup_from(b, "func"@, 0) == func
            &&& text::lookup_from(b, "call_args_str"@, 0) == call_args_str
        }),
{
    reveal_strlit("module");
    reveal_strlit("func");
    reveal_strlit("call_args_str");
    reveal_with_fuel(text::lookup_from, 4);
    assert("module"@.len() != "func"@.len());
    assert("module"@.len() != "call_args_str"@.len());
    assert("func"@.len() != "call_args_str"@.len());
}

proof fn lemma_holes_i_n_wit_module_type_pascal_case_pascal(
    i: Seq<char>,
    n: Seq<char>,
    wit_module: Seq<char>,
    type_pascal: Seq<char>,
    case_pascal: Seq<char>,
)
    ensures
        ({
            let b = seq![("i"@, i), ("n"@, n), ("wit_module"@, wit_module), ("type_pascal"@, type_pascal), ("case_pascal"@, case_pascal)];
            &&& text::lookup_from(b, "i"@, 0) == i
            &&& text::lookup_from(b, "n"@, 0) == n
            &&& text::lookup_from(b, "wit_module"@, 0) == wit_module
            &&& text::lookup_from(b, "type_pascal"@, 0) == type_pascal
            &&& text::lookup_from(b, "case_pascal"@, 0) == case_pascal
        }),
{
    reveal_strlit("i");
    reveal_strlit("n");
    reveal_strlit("wit_module");
    reveal_strlit("type_pascal");
    reveal_strlit("case_pascal");
    reveal_with_fuel(text::lookup_from, 6);
    assert("i"@[0] != "n"@[0]);
    assert("i"@.len() != "wit_module"@.len());
    assert("i"@.len() != "type_pascal"@.len());
    assert("i"@.len() != "case_pascal"@.len());
    assert("n"@.len() != "wit_module"@.len());
    assert("n"@.len() != "type_pascal"@.len());
    assert("n"@.len() != "case_pascal"@.len());
    assert("wit_module"@.len() != "type_pascal"@.len());
    assert("wit_module"@.len() != "case_pascal"@.len());
    assert("type_pascal"@[0] != "case_pascal"@[0]);
}

proof fn lemma_call_constructor(pascal: Seq<char>, call_args_str: Seq<char>)
    ensures
        text::fill(
            calls::CALL_CONSTRUCTOR@,
            seq![("pascal"@, pascal), ("call_args_str"@, call_args_str)],
        )
            == pascal + "::new("@ + call_args_str + ")"@,
{
    let s = calls::CALL_CONSTRUCTOR@;
    let b = seq![("pascal"@, pascal), ("call_args_str"@, call_args_str)];
    reveal_strlit("{pascal}::new({call_args_str})");
    reveal_with_fuel(text::plain_to, 31);
    lemma_holes_pascal_call_args_str(pascal, call_args_str);
    reveal_strlit("pascal");
    assert(s.subrange(1, 7) =~= "pascal"@);
    text::lemma_fill_hole(s, b, 0, "pascal"@);
    reveal_strlit("::new(");
    assert(s.subrange(8, 14) =~= "::new("@);
    text::lemma_fill_run(s, b, 8, "::new("@);
    reveal_strlit("call_args_str");
    assert(s.subrange(15, 28) =~= "call_args_str"@);
    text::lemma_fill_hole(s, b, 14, "call_args_str"@);
    reveal_strlit(")");
    assert(s.subrange(29, 30) =~= ")"@);
    text::lemma_fill_run(s, b, 29, ")"@);
    assert((pascal + ("::new("@ + (call_args_str + (")"@ + text::fill_from(s, b, 30)))))
        =~= pascal + "::new("@ + call_args_str + ")"@);
}

proof fn lemma_call_method(recv: Seq<char>, func: Seq<char>, rest: Seq<char>)
    ensures
        text::fill(calls::CALL_METHOD@, seq![("recv"@, recv), ("func"@, func), ("rest"@, rest)])
            == recv + "."@ + func + "("@ + rest + ")"@,
{
    let s = calls::CALL_METHOD@;
    let b = seq![("recv"@, recv), ("func"@, func), ("rest"@, rest)];
    reveal_strlit("{recv}.{func}({rest})");
    reveal_with_fuel(text::plain_to, 31);
    lemma_holes_recv_func_rest(recv, func, rest);
    reveal_strlit("recv");
    assert(s.subrange(1, 5) =~= "recv"@);
    text::lemma_fill_hole(s, b, 0, "recv"@);
    reveal_strlit(".");
    assert(s.subrange(6, 7) =~= "."@);
    text::lemma_fill_run(s, b, 6, "."@);
    reveal_strlit("func");
    assert(s.subrange(8, 12) =~= "func"@);
    text::lemma_fill_hole(s, b, 7, "func"@);
    reveal_strlit("(");
    assert(s.subrange(13, 14) =~= "("@);
    text::lemma_fill_run(s, b, 13, "("@);
    reveal_strlit("rest");
    assert(s.subrange(15, 19) =~= "rest"@);
    text::lemma_fill_hole(s, b, 14, "rest"@);
    reveal_strlit(")");
    assert(s.subrange(20, 21) =~= ")"@);
    text::lemma_fill_run(s, b, 20, ")"@);
    assert((recv + ("."@ + (func + ("("@ + (rest + (")"@ + text::fill_from(s, b, 21)))))))
        =~= recv + "."@ + func + "("@ + rest + ")"@);
}

proof fn lemma_call_function(module: Seq<char>, func: Seq<char>, call_args_str: Seq<char>)
    ensures
        text::fill(
            calls::CALL_FUNCTION@,
            seq![("module"@, module), ("func"@, func), ("call_args_str"@, call_args_str)],
        )
            == module + "::"@ + func + "("@ + call_args_str + ")"@,
{
    let s = calls::CALL_FUNCTION@;
    let b = seq![("module"@, module), ("func"@, func), ("call_args_str"@, call_args_str)];
    reveal_strlit("{module}::{func}({call_args_str})");
    reveal_with_fuel(text::plain_to, 31);
    lemma_holes_module_func_call_args_str(module, func, call_args_str);
    reveal_strlit("module");
    assert(s.subrange(1, 7) =~= "module"@);
    text::lemma_fill_hole(s, b, 0, "module"@);
    reveal_strlit("::");
    assert(s.subrange(8, 10) =~= "::"@);
    text::lemma_fill_run(s, b, 8, "::"@);
    reveal_strlit("func");
    assert(s.subrange(11, 15) =~= "func"@);
    text::lemma_fill_hole(s, b, 10, "func"@);
    reveal_strlit("(");
    assert(s.subrange(16, 17) =~= "("@);
    text::lemma_fill_run(s, b, 16, "("@);
    reveal_strlit("call_args_str");
    assert(s.subrange(18, 31) =~= "call_args_str"@);
    text::lemma_fill_hole(s, b, 17, "call_args_str"@);
    reveal_strlit(")");
    assert(s.subrange(32, 33) =~= ")"@);
    text::lemma_fill_run(s, b, 32, ")"@);
    assert((module + ("::"@ + (func + ("("@ + (call_args_str + (")"@ + text::fill_from(s, b, 33)))))))
        =~= module + "::"@ + func + "("@ + call_args_str + ")"@);
}

proof fn lemma_enum_arm(
    i: Seq<char>,
    n: Seq<char>,
    wit_module: Seq<char>,
    type_pascal: Seq<char>,
    case_pascal: Seq<char>,
)
    ensures
        text::fill(
            calls::ENUM_ARM@,
            seq![("i"@, i), ("n"@, n), ("wit_module"@, wit_module), ("type_pascal"@, type_pascal), ("case_pascal"@, case_pascal)],
        )
            == i + "    "@ + n + " => "@ + wit_module + "::"@ + type_pascal + "::"@ + case_pascal
                + ",\n"@,
{
    let s = calls::ENUM_ARM@;
    let b = seq![("i"@, i), ("n"@, n), ("wit_module"@, wit_module), ("type_pascal"@, type_pascal), ("case_pascal"@, case_pascal)];
    reveal_strlit("{i}    {n} => {wit_module}::{type_pascal}::{case_pascal},\n");
    reveal_with_fuel(text::plain_to, 31);
    lemma_holes_i_n_wit_module_type_pascal_case_pascal(i, n, wit_module, type_pascal, case_pascal);
    reveal_strlit("i");
    assert(s.subrange(1, 2) =~= "i"@);
    text::lemma_fill_hole(s, b, 0, "i"@);
    reveal_strlit("    ");
    assert(s.subrange(3, 7) =~= "    "@);
    text::lemma_fill_run(s, b, 3, "    "@);
    reveal_strlit("n");
    assert(s.subrange(8, 9) =~= "n"@);
    text::lemma_fill_hole(s, b, 7, "n"@);
    reveal_strlit(" => ");
    assert(s.subrange(10, 14) =~= " => "@);
    text::lemma_fill_run(s, b, 10, " => "@);
    reveal_strlit("wit_module");
    assert(s.subrange(15, 25) =~= "wit_module"@);
    text::lemma_fill_hole(s, b, 14, "wit_module"@);
    reveal_strlit("::");
    assert(s.subrange(26, 28) =~= "::"@);
    text::lemma_fill_run(s, b, 26, "::"@);
    reveal_strlit("type_pascal");
    assert(s.subrange(29, 40) =~= "type_pascal"@);
    text::lemma_fill_hole(s, b, 28, "type_pascal"@);
    assert(s.subrange(41, 43) =~= "::"@);
    text::lemma_fill_run(s, b, 41, "::"@);
    reveal_strlit("case_pascal");
    assert(s.subrange(44, 55) =~= "case_pascal"@);
    text::lemma_fill_hole(s, b, 43, "case_pascal"@);
    reveal_strlit(",\n");
    assert(s.subrange(56, 58) =~= ",\n"@);
    text::lemma_fill_run(s, b, 56, ",\n"@);
    assert((
        i
            + (
                "    "@
                    + (
                        n
                            + (
                                " => "@
                                    + (
                                        wit_module
                                            + (
                                                "::"@
                                                    + (
                                                        type_pascal
                                                            + (
                                                                "::"@
                                                                    + (
                                                                        case_pascal
                                                                            + (
                                                                                ",\n"@
                                                                                    + text::fill_from(
                                                                                        s,
                                                                                        b,
                                                                                        58,
                                                                                    )
                                                                            )
                                                                    )
                                                            )
                                                    )
                                            )
                                    )
                            )
                    )
            )
    )
        =~= i + "    "@ + n + " => "@ + wit_module + "::"@ + type_pascal + "::"@ + case_pascal + ",\n"@);
}

proof fn lemma_case_arm(
    i: Seq<char>,
    n: Seq<char>,
    wit_module: Seq<char>,
    type_pascal: Seq<char>,
    case_pascal: Seq<char>,
)
    ensures
        text::fill(
            calls::CASE_ARM@,
            seq![("i"@, i), ("n"@, n), ("wit_module"@, wit_module), ("type_pascal"@, type_pascal), ("case_pascal"@, case_pascal)],
        )
            == i + "        "@ + wit_module + "::"@ + type_pascal + "::"@ + case_pascal + " => "@ + n
                + ",\n"@,
{
    let s = calls::CASE_ARM@;
    let b = seq![("i"@, i), ("n"@, n), ("wit_module"@, wit_module), ("type_pascal"@, type_pascal), ("case_pascal"@, case_pascal)];
    reveal_strlit("{i}        {wit_module}::{type_pascal}::{case_pascal} => {n},\n");
    reveal_with_fuel(text::plain_to, 31);
    lemma_holes_i_n_wit_module_type_pascal_case_pascal(i, n, wit_module, type_pascal, case_pascal);
    reveal_strlit("i");
    assert(s.subrange(1, 2) =~= "i"@);
    text::lemma_fill_hole(s, b, 0, "i"@);
    reveal_strlit("        ");
    assert(s.subrange(3, 11) =~= "        "@);
    text::lemma_fill_run(s, b, 3, "        "@);
    reveal_strlit("wit_module");
    assert(s.subrange(12, 22) =~= "wit_module"@);
    text::lemma_fill_hole(s, b, 11, "wit_module"@);
    reveal_strlit("::");
    assert(s.subrange(23, 25) =~= "::"@);
    text::lemma_fill_run(s, b, 23, "::"@);
    reveal_strlit("type_pascal");
    assert(s.subrange(26, 37) =~= "type_pascal"@);
    text::lemma_fill_hole(s, b, 25, "type_pascal"@);
    assert(s.subrange(38, 40) =~= "::"@);
    text::lemma_fill_run(s, b, 38, "::"@);
    reveal_strlit("case_pascal");
    assert(s.subrange(41, 52) =~= "case_pascal"@);
    text::lemma_fill_hole(s, b, 40, "case_pascal"@);
    reveal_strlit(" => ");
    assert(s.subrange(53, 57) =~= " => "@);
    text::lemma_fill_run(s, b, 53, " => "@);
    reveal_strlit("n");
    assert(s.subrange(58, 59) =~= "n"@);
    text::lemma_fill_hole(s, b, 57, "n"@);
    reveal_strlit(",\n");
    assert(s.subrange(60, 62) =~= ",\n"@);
    text::lemma_fill_run(s, b, 60, ",\n"@);
    assert((
        i
            + (
                "        "@
                    + (
                        wit_module
                            + (
                                "::"@
                                    + (
                                        type_pascal
                                            + (
                                                "::"@
                                                    + (
                                                        case_pascal
                                                            + (
                                                                " => "@
                                                                    + (
                                                                        n
                                                                            + (
                                                                                ",\n"@
                                                                                    + text::fill_from(
                                                                                        s,
                                                                                        b,
                                                                                        62,
                                                                                    )
                                                                            )
                                                                    )
                                                            )
                                                    )
                                            )
                                    )
                            )
                    )
            )
    )
        =~= i + "        "@ + wit_module + "::"@ + type_pascal + "::"@ + case_pascal + " => "@ + n
            + ",\n"@);
}

} // verus!
