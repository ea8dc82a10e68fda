//! What the words for a shape say.

use vstd::prelude::*;
use vstd::string::*;

use crate::describe;
use crate::ir::{ListPrimElem, ListTupleElem, ParamShape};
use crate::text;
use crate::words;

verus! {

/// The words for a parameter are the name of its shape, with what the shape holds behind it: the
/// elements and the cases in their order, and names between quotation marks.
pub proof fn law_words_name_shape(p: ParamShape, parts: Seq<Seq<char>>)
    requires
        p matches ParamShape::Enum { cases, .. } ==> parts.len() == cases@.len() && forall|k: int|
            0 <= k < parts.len() ==> #[trigger] parts[k] == describe::quoted(cases@[k]@),
        p matches ParamShape::ListTuple { elements } ==> parts.len() == elements@.len() && forall|
            k: int,
        |
            0 <= k < parts.len() ==> #[trigger] parts[k] == describe::elem_word(elements@[k]),
        p matches ParamShape::ListTupleMixed { elements } ==> parts.len() == elements@.len()
            && forall|k: int|
            0 <= k < parts.len() ==> #[trigger] parts[k] == describe::mixed_word(elements@[k]),
    ensures
        ({
            let s = describe::param_words(p);
            let all = "["@ + words::joined(parts, ", "@) + "]"@;
            match p {
                ParamShape::Text => s == "Text"@,
                ParamShape::F64 => s == "F64"@,
                ParamShape::S32 => s == "S32"@,
                ParamShape::S64 => s == "S64"@,
                ParamShape::U32 => s == "U32"@,
                ParamShape::U64 => s == "U64"@,
                ParamShape::Bool => s == "Bool"@,
                ParamShape::Blob => s == "Blob"@,
                ParamShape::Geom => s == "Geom"@,
                ParamShape::Geog => s == "Geog"@,
                ParamShape::Raster => s == "Raster"@,
                ParamShape::Topology => s == "Topology"@,
                ParamShape::OptionNone => s == "OptionNone"@,
                ParamShape::ListGeom => s == "ListGeom"@,
                ParamShape::ListListU8 => s == "ListListU8"@,
                ParamShape::Enum { wit_module, wit_package, kebab_name, cases } => s
                    == "Enum { wit_module: "@ + describe::quoted(wit_module@) + ", wit_package: "@
                        + describe::quoted(wit_package@) + ", kebab_name: "@
                        + describe::quoted(kebab_name@) + ", cases: "@ + all + " }"@,
                ParamShape::ListRecord { kebab_name } => s == "ListRecord { kebab_name: "@
                    + describe::quoted(kebab_name@) + " }"@,
                ParamShape::ListPrim(e) => s == "ListPrim("@ + describe::elem_word(e) + ")"@,
                ParamShape::ListTuple { .. } => s == "ListTuple { elements: "@ + all + " }"@,
                ParamShape::ListTupleMixed { .. } => s == "ListTupleMixed { elements: "@ + all
                    + " }"@,
                ParamShape::ListListPrim(e) => s == "ListListPrim("@ + describe::elem_word(e)
                    + ")"@,
                ParamShape::ListListRecord { kebab_name } => s == "ListListRecord { kebab_name: "@
                    + describe::quoted(kebab_name@) + " }"@,
                ParamShape::WitValueRecord { kebab_name, upstream_by_value } => s
                    == "WitValueRecord { kebab_name: "@ + describe::quoted(kebab_name@) + if upstream_by_value {
                    ", upstream_by_value: true }"@
                } else {
                    ", upstream_by_value: false }"@
                },
            }
        }),
{
    match p {
        ParamShape::Enum { wit_module, wit_package, kebab_name, cases } => {
            assert(describe::case_words(cases@) =~= parts);
            lemma_enum(
                describe::quoted(wit_module@),
                describe::quoted(wit_package@),
                describe::quoted(kebab_name@),
                describe::listed(parts),
            );
        },
        ParamShape::ListTuple { elements } => {
            assert(elements@.map_values(|e: ListPrimElem| describe::elem_word(e)) =~= parts);
        },
        ParamShape::ListTupleMixed { elements } => {
            assert(elements@.map_values(|e: ListTupleElem| describe::mixed_word(e)) =~= parts);
        },
        _ => {},
    }
}

/// The word for an element is the name of its type, and that for an element of a mixed tuple says
/// whether it is a primitive or a record.
pub proof fn law_words_name_element(e: ListPrimElem, m: ListTupleElem)
    ensures
        match e {
            ListPrimElem::F64 => describe::elem_word(e) == "F64"@,
            ListPrimElem::F32 => describe::elem_word(e) == "F32"@,
            ListPrimElem::S32 => describe::elem_word(e) == "S32"@,
            ListPrimElem::S64 => describe::elem_word(e) == "S64"@,
            ListPrimElem::U32 => describe::elem_word(e) == "U32"@,
            ListPrimElem::U64 => describe::elem_word(e) == "U64"@,
            ListPrimElem::U8 => describe::elem_word(e) == "U8"@,
            ListPrimElem::Bool => describe::elem_word(e) == "Bool"@,
            ListPrimElem::String => describe::elem_word(e) == "String"@,
        },
        match m {
            ListTupleElem::Prim(p) => describe::mixed_word(m) == "Prim("@ + describe::elem_word(p) + ")"@,
            ListTupleElem::Record(r) => describe::mixed_word(m)
                == "Record(TupleRecord { wit_package: "@ + describe::quoted(r.wit_package@)
                    + ", wit_interface: "@ + describe::quoted(r.wit_interface@) + ", kebab_name: "@
                    + describe::quoted(r.kebab_name@) + " })"@,
        },
{
    if let ListTupleElem::Record(r) = m {
        lemma_tuple_record(
            describe::quoted(r.wit_package@),
            describe::quoted(r.wit_interface@),
            describe::quoted(r.kebab_name@),
        );
    }
}

proof fn lemma_holes_wit_module_wit_package_kebab_name_cases(
    wit_module: Seq<char>,
    wit_package: Seq<char>,
    kebab_name: Seq<char>,
    cases: Seq<char>,
)
    ensures
        ({
            let b = seq![("wit_module"@, wit_module), ("wit_package"@, wit_package), ("kebab_name"@, kebab_name), ("cases"@, cases)];
            &&& text::lookup_from(b, "wit_module"@, 0) == wit_module
            &&& text::lookup_from(b, "wit_package"@, 0) == wit_package
            &&& text::lookup_from(b, "kebab_name"@, 0) == kebab_name
            &&& text::lookup_from(b, "cases"@, 0) == cases
        }),
{
    reveal_strlit("wit_module");
    reveal_strlit("wit_package");
    reveal_strlit("kebab_name");
    reveal_strlit("cases");
    reveal_with_fuel(text::lookup_from, 5);
    assert("wit_module"@.len() != "wit_package"@.len());
    assert("wit_module"@[0] != "kebab_name"@[0]);
    assert("wit_module"@.len() != "cases"@.len());
    assert("wit_package"@.len() != "kebab_name"@.len());
    assert("wit_package"@.len() != "cases"@.len());
    assert("kebab_name"@.len() != "cases"@.len());
}

proof fn lemma_holes_wit_package_wit_interface_kebab_name(
    wit_package: Seq<char>,
    wit_interface: Seq<char>,
    kebab_name: Seq<char>,
)
    ensures
        ({
            let b = seq![("wit_package"@, wit_package), ("wit_interface"@, wit_interface), ("kebab_name"@, kebab_name)];
            &&& text::lookup_from(b, "wit_package"@, 0) == wit_package
            &&& text::lookup_from(b, "wit_interface"@, 0) == wit_interface
            &&& text::lookup_from(b, "kebab_name"@, 0) == kebab_name
        }),
{
    reveal_strlit("wit_package");
    reveal_strlit("wit_interface");
    reveal_strlit("kebab_name");
    reveal_with_fuel(text::lookup_from, 4);
    assert("wit_package"@.len() != "wit_interface"@.len());
    assert("wit_package"@.len() != "kebab_name"@.len());
    assert("wit_interface"@.len() != "kebab_name"@.len());
}

proof fn lemma_enum(
    wit_module: Seq<char>,
    wit_package: Seq<char>,
    kebab_name: Seq<char>,
    cases: Seq<char>,
)
    ensures
        text::fill(
            describe::ENUM@,
            seq![("wit_module"@, wit_module), ("wit_package"@, wit_package), ("kebab_name"@, kebab_name), ("cases"@, cases)],
        )
            == "Enum { wit_module: "@ + wit_module + ", wit_package: "@ + wit_package
                + ", kebab_name: "@ + kebab_name + ", cases: "@ + cases + " }"@,
{
    let s = describe::ENUM@;
    let b = seq![("wit_module"@, wit_module), ("wit_package"@, wit_package), ("kebab_name"@, kebab_name), ("cases"@, cases)];
    reveal_strlit("Enum {{ wit_module: {wit_module}, wit_package: {wit_package}, kebab_name: {kebab_name}, cases: {cases} }}");
    reveal_with_fuel(text::plain_to, 31);
    lemma_holes_wit_module_wit_package_kebab_name_cases(wit_module, wit_package, kebab_name, cases);
    reveal_strlit("Enum ");
    assert(s.subrange(0, 5) =~= "Enum "@);
    text::lemma_fill_run(s, b, 0, "Enum "@);
    assert(text::fill_from(s, b, 5) == seq!['{'] + text::fill_from(s, b, 7));
    reveal_strlit(" wit_module: ");
    assert(s.subrange(7, 20) =~= " wit_module: "@);
    text::lemma_fill_run(s, b, 7, " wit_module: "@);
    reveal_strlit("wit_module");
    assert(s.subrange(21, 31) =~= "wit_module"@);
    text::lemma_fill_hole(s, b, 20, "wit_module"@);
    reveal_strlit(", wit_package: ");
    assert(s.subrange(32, 47) =~= ", wit_package: "@);
    text::lemma_fill_run(s, b, 32, ", wit_package: "@);
    reveal_strlit("wit_package");
    assert(s.subrange(48, 59) =~= "wit_package"@);
    text::lemma_fill_hole(s, b, 47, "wit_package"@);
    reveal_strlit(", kebab_name: ");
    assert(s.subrange(60, 74) =~= ", kebab_name: "@);
    text::lemma_fill_run(s, b, 60, ", kebab_name: "@);
    reveal_strlit("kebab_name");
    assert(s.subrange(75, 85) =~= "kebab_name"@);
    text::lemma_fill_hole(s, b, 74, "kebab_name"@);
    reveal_strlit(", cases: ");
    assert(s.subrange(86, 95) =~= ", cases: "@);
    text::lemma_fill_run(s, b, 86, ", cases: "@);
    reveal_strlit("cases");
    assert(s.subrange(96, 101) =~= "cases"@);
    text::lemma_fill_hole(s, b, 95, "cases"@);
    reveal_strlit(" ");
    assert(s.subrange(102, 103) =~= " "@);
    text::lemma_fill_run(s, b, 102, " "@);
    assert(text::fill_from(s, b, 103) == seq!['}'] + text::fill_from(s, b, 105));
    reveal_strlit("Enum { wit_module: ");
    reveal_strlit(" }");
    assert((
        "Enum "@
            + (
                seq!['{']
                    + (
                        " wit_module: "@
                            + (
                                wit_module
                                    + (
                                        ", wit_package: "@
                                            + (
                                                wit_package
                                                    + (
                                                        ", kebab_name: "@
                                                            + (
                                                                kebab_name
                                                                    + (
                                                                        ", cases: "@
                                                                            + (
                                                                                cases
                                                                                    + (
                                                                                        " "@
                                                                                            + (
                                                                                                seq!['}']
                                                                                                    + text::fill_from(
                                                                                                        s,
                                                                                                        b,
                                                                                                        105,
                                                                                                    )
                                                                                            )
                                                                                    )
                                                                            )
                                                                    )
                                                            )
                                                    )
                                            )
                                    )
                            )
                    )
            )
    )
        =~= "Enum { wit_module: "@ + wit_module + ", wit_package: "@ + wit_package + ", kebab_name: "@
            + kebab_name + ", cases: "@ + cases + " }"@);
}

proof fn lemma_tuple_record(wit_package: Seq<char>, wit_interface: Seq<char>, kebab_name: Seq<char>)
    ensures
        text::fill(
            describe::TUPLE_RECORD@,
            seq![("wit_package"@, wit_package), ("wit_interface"@, wit_interface), ("kebab_name"@, kebab_name)],
        )
            == "Record(TupleRecord { wit_package: "@ + wit_package + ", wit_interface: "@
                + wit_interface + ", kebab_name: "@ + kebab_name + " })"@,
{
    let s = describe::TUPLE_RECORD@;
    let b = seq![("wit_package"@, wit_package), ("wit_interface"@, wit_interface), ("kebab_name"@, kebab_name)];
    reveal_strlit("Record(TupleRecord {{ wit_package: {wit_package}, wit_interface: {wit_interface}, kebab_name: {kebab_name} }})");
    reveal_with_fuel(text::plain_to, 31);
    lemma_holes_wit_package_wit_interface_kebab_name(wit_package, wit_interface, kebab_name);
    reveal_strlit("Record(TupleRecord ");
    assert(s.subrange(0, 19) =~= "Record(TupleRecord "@);
    text::lemma_fill_run(s, b, 0, "Record(TupleRecord "@);
    assert(text::fill_from(s, b, 19) == seq!['{'] + text::fill_from(s, b, 21));
    reveal_strlit(" wit_package: ");
    assert(s.subrange(21, 35) =~= " wit_package: "@);
    text::lemma_fill_run(s, b, 21, " wit_package: "@);
    reveal_strlit("wit_package");
    assert(s.subrange(36, 47) =~= "wit_package"@);
    text::lemma_fill_hole(s, b, 35, "wit_package"@);
    reveal_strlit(", wit_interface: ");
    assert(s.subrange(48, 65) =~= ", wit_interface: "@);
    text::lemma_fill_run(s, b, 48, ", wit_interface: "@);
    reveal_strlit("wit_interface");
    assert(s.subrange(66, 79) =~= "wit_interface"@);
    text::lemma_fill_hole(s, b, 65, "wit_interface"@);
    reveal_strlit(", kebab_name: ");
    assert(s.subrange(80, 94) =~= ", kebab_name: "@);
    text::lemma_fill_run(s, b, 80, ", kebab_name: "@);
    reveal_strlit("kebab_name");
    assert(s.subrange(95, 105) =~= "kebab_name"@);
    text::lemma_fill_hole(s, b, 94, "kebab_name"@);
    reveal_strlit(" ");
    assert(s.subrange(106, 107) =~= " "@);
    text::lemma_fill_run(s, b, 106, " "@);
    assert(text::fill_from(s, b, 107) == seq!['}'] + text::fill_from(s, b, 109));
    reveal_strlit(")");
    assert(s.subrange(109, 110) =~= ")"@);
    text::lemma_fill_run(s, b, 109, ")"@);
    reveal_strlit("Record(TupleRecord { wit_package: ");
    reveal_strlit(" })");
    assert((
        "Record(TupleRecord "@
            + (
                seq!['{']
                    + (
                        " wit_package: "@
                            + (
                                wit_package
                                    + (
                                        ", wit_interface: "@
                                            + (
                                                wit_interface
                                                    + (
                                                        ", kebab_name: "@
                                                            + (
                                                                kebab_name
                                                                    + (
                                                                        " "@
                                                                            + (
                                                                                seq!['}']
                                                                                    + (
                                                                                        ")"@
                                                                                            + text::fill_from(
                                                                                                s,
                                                                                                b,
                                                                                                110,
                                                                                            )
                                                                                    )
                                                                            )
                                                                    )
                                                            )
                                                    )
                                            )
                                    )
                            )
                    )
            )
    )
        =~= "Record(TupleRecord { wit_package: "@ + wit_package + ", wit_interface: "@ + wit_interface
            + ", kebab_name: "@ + kebab_name + " })"@);
}

} // verus!
