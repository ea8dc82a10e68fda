//! Shapes in words, for messages.

use vstd::prelude::*;
use vstd::string::*;

use crate::ir::{ListPrimElem, ListTupleElem, ParamShape};
use crate::text::{self, cat3, chars_of, fill3, fill4};
use crate::words::{self, join};

verus! {

pub const ENUM: &'static str =
    "Enum {{ wit_module: {wit_module}, wit_package: {wit_package}, kebab_name: {kebab_name}, cases: {cases} }}";

pub const TUPLE_RECORD: &'static str =
    "Record(TupleRecord {{ wit_package: {wit_package}, wit_interface: {wit_interface}, kebab_name: {kebab_name} }})";

/// A primitive in words.
pub open spec fn elem_word(e: ListPrimElem) -> Seq<char> {
    match e {
        ListPrimElem::F64 => "F64"@,
        ListPrimElem::F32 => "F32"@,
        ListPrimElem::S32 => "S32"@,
        ListPrimElem::S64 => "S64"@,
        ListPrimElem::U32 => "U32"@,
        ListPrimElem::U64 => "U64"@,
        ListPrimElem::U8 => "U8"@,
        ListPrimElem::Bool => "Bool"@,
        ListPrimElem::String => "String"@,
    }
}

/// A primitive in words.
pub fn describe_elem(e: &ListPrimElem) -> (r: &'static str)
    ensures
        r@ == elem_word(*e),
{
    match e {
        ListPrimElem::F64 => "F64",
        ListPrimElem::F32 => "F32",
        ListPrimElem::S32 => "S32",
        ListPrimElem::S64 => "S64",
        ListPrimElem::U32 => "U32",
        ListPrimElem::U64 => "U64",
        ListPrimElem::U8 => "U8",
        ListPrimElem::Bool => "Bool",
        ListPrimElem::String => "String",
    }
}

/// The digit for a number below 16.
pub open spec fn hex_digit(n: nat) -> char {
    if n < 10 {
        (n + 48) as char
    } else {
        (n + 87) as char
    }
}

/// An ASCII character as it stands between quotation marks: quotation marks, backslashes and
/// control characters are escaped.
pub open spec fn escaped_char(c: char) -> Seq<char> {
    let n = c as nat;
    if c == '"' {
        "\\\""@
    } else if c == '\\' {
        "\\\\"@
    } else if c == '\t' {
        "\\t"@
    } else if c == '\n' {
        "\\n"@
    } else if c == '\r' {
        "\\r"@
    } else if n == 0 {
        "\\0"@
    } else if n < 16 {
        "\\u{"@.push(hex_digit(n)).push('}')
    } else if n < 32 || n == 127 {
        "\\u{"@.push(hex_digit(n / 16)).push(hex_digit(n % 16)).push('}')
    } else {
        seq![c]
    }
}

/// The first `n` characters of a text that is all ASCII, as they stand between quotation marks.
pub open spec fn escaped_prefix(s: Seq<char>, n: nat) -> Seq<char>
    decreases n,
{
    if n == 0 {
        Seq::empty()
    } else {
        escaped_prefix(s, (n - 1) as nat) + escaped_char(s[n - 1])
    }
}

/// What `Debug` of std writes for a text that is not all ASCII.
pub uninterp spec fn quoted_beyond_ascii(s: Seq<char>) -> Seq<char>;

/// A text between quotation marks, escaped.
pub open spec fn quoted(s: Seq<char>) -> Seq<char> {
    if words::all_ascii(s) {
        "\""@ + escaped_prefix(s, s.len()) + "\""@
    } else {
        quoted_beyond_ascii(s)
    }
}

/// A list in brackets.
pub open spec fn listed(items: Seq<Seq<char>>) -> Seq<char> {
    "["@ + words::joined(items, ", "@) + "]"@
}

/// An element of a tuple in words.
pub open spec fn mixed_word(e: ListTupleElem) -> Seq<char> {
    match e {
        ListTupleElem::Prim(p) => "Prim("@ + elem_word(p) + ")"@,
        ListTupleElem::Record(r) => text::fill(
            TUPLE_RECORD@,
            seq![
                ("wit_package"@, quoted(r.wit_package@)),
                ("wit_interface"@, quoted(r.wit_interface@)),
                ("kebab_name"@, quoted(r.kebab_name@)),
            ],
        ),
    }
}

/// The cases of an enum in words.
pub open spec fn case_words(cases: Seq<String>) -> Seq<Seq<char>> {
    cases.map_values(|c: String| quoted(c@))
}

/// The shape of a parameter in words: the variant and its fields.
pub open spec fn param_words(p: ParamShape) -> Seq<char> {
    match p {
        ParamShape::Text => "Text"@,
        ParamShape::F64 => "F64"@,
        ParamShape::S32 => "S32"@,
        ParamShape::S64 => "S64"@,
        ParamShape::U32 => "U32"@,
        ParamShape::U64 => "U64"@,
        ParamShape::Bool => "Bool"@,
        ParamShape::Blob => "Blob"@,
        ParamShape::Geom => "Geom"@,
        ParamShape::Geog => "Geog"@,
        ParamShape::Raster => "Raster"@,
        ParamShape::Topology => "Topology"@,
        ParamShape::OptionNone => "OptionNone"@,
        ParamShape::ListGeom => "ListGeom"@,
        ParamShape::ListListU8 => "ListListU8"@,
        ParamShape::Enum { wit_module, wit_package, kebab_name, cases } => text::fill(
            ENUM@,
            seq![
                ("wit_module"@, quoted(wit_module@)),
                ("wit_package"@, quoted(wit_package@)),
                ("kebab_name"@, quoted(kebab_name@)),
                ("cases"@, listed(case_words(cases@))),
            ],
        ),
        ParamShape::ListRecord { kebab_name } => "ListRecord { kebab_name: "@ + quoted(kebab_name@)
            + " }"@,
        ParamShape::ListPrim(e) => "ListPrim("@ + elem_word(e) + ")"@,
        ParamShape::ListTuple { elements } => "ListTuple { elements: "@ + listed(
            elements@.map_values(|e: ListPrimElem| elem_word(e)),
        ) + " }"@,
        ParamShape::ListTupleMixed { elements } => "ListTupleMixed { elements: "@ + listed(
            elements@.map_values(|e: ListTupleElem| mixed_word(e)),
        ) + " }"@,
        ParamShape::ListListPrim(e) => "ListListPrim("@ + elem_word(e) + ")"@,
        ParamShape::ListListRecord { kebab_name } => "ListListRecord { kebab_name: "@
            + quoted(kebab_name@) + " }"@,
        ParamShape::WitValueRecord { kebab_name, upstream_by_value } =>
            "WitValueRecord { kebab_name: "@ + quoted(kebab_name@) + (if upstream_by_value {
            ", upstream_by_value: true }"@
        } else {
            ", upstream_by_value: false }"@
        }),
    }
}

fn list_elem_words(elements: &Vec<ListPrimElem>) -> (r: Vec<String>)
    ensures
        text::strs(r@) == elements@.map_values(|e: ListPrimElem| elem_word(e)),
{
    let mut r: Vec<String> = Vec::new();
    let mut k: usize = 0;
    while k < elements.len()
        invariant
            k <= elements@.len(),
            r@.len() == k,
            forall|j: int| 0 <= j < k ==> #[trigger] r@[j]@ == elem_word(elements@[j]),
        decreases elements.len() - k,
    {
        r.push(describe_elem(&elements[k]).to_owned());
        k = k + 1;
    }
    assert(text::strs(r@) =~= elements@.map_values(|e: ListPrimElem| elem_word(e)));
    r
}

fn list_mixed_words(elements: &Vec<ListTupleElem>) -> (r: Vec<String>)
    ensures
        text::strs(r@) == elements@.map_values(|e: ListTupleElem| mixed_word(e)),
{
    let mut r: Vec<String> = Vec::new();
    let mut k: usize = 0;
    while k < elements.len()
        invariant
            k <= elements@.len(),
            r@.len() == k,
            forall|j: int| 0 <= j < k ==> #[trigger] r@[j]@ == mixed_word(elements@[j]),
        decreases elements.len() - k,
    {
        let word = match &elements[k] {
            ListTupleElem::Prim(p) => cat3("Prim(", describe_elem(p), ")"),
            ListTupleElem::Record(rec) => {
                let package = quote(rec.wit_package.as_str());
                let interface = quote(rec.wit_interface.as_str());
                let name = quote(rec.kebab_name.as_str());
                fill3(
                    TUPLE_RECORD,
                    "wit_package",
                    package.as_str(),
                    "wit_interface",
                    interface.as_str(),
                    "kebab_name",
                    name.as_str(),
                )
            },
        };
        r.push(word);
        k = k + 1;
    }
    assert(text::strs(r@) =~= elements@.map_values(|e: ListTupleElem| mixed_word(e)));
    r
}

fn pick_hex_digit(n: u8) -> (r: char)
    requires
        n < 16,
    ensures
        r == hex_digit(n as nat),
{
    if n < 10 {
        (n + 48) as char
    } else {
        (n + 87) as char
    }
}

fn push_escaped(out: &mut String, c: char)
    requires
        c as int <= 127,
    ensures
        final(out)@ == old(out)@ + escaped_char(c),
{
    let n: u8 = c as u8;
    if c == '"' {
        out.append("\\\"");
    } else if c == '\\' {
        out.append("\\\\");
    } else if c == '\t' {
        out.append("\\t");
    } else if c == '\n' {
        out.append("\\n");
    } else if c == '\r' {
        out.append("\\r");
    } else if n == 0 {
        out.append("\\0");
    } else if n < 16 {
        out.append("\\u{");
        out.push(pick_hex_digit(n));
        out.push('}');
    } else if n < 32 || n == 127 {
        out.append("\\u{");
        out.push(pick_hex_digit(n / 16));
        out.push(pick_hex_digit(n % 16));
        out.push('}');
    } else {
        out.push(c);
    }
    assert(out@ =~= old(out)@ + escaped_char(c));
}

/// Calls `Debug` of std on a text. Nothing is claimed but that what it writes depends on the
/// text alone.
#[verifier::external_body]
fn debug_str(s: &str) -> (r: String)
    requires
        !words::all_ascii(s@),
    ensures
        r@ == quoted_beyond_ascii(s@),
{
    format!("{:?}", s)
}

/// Writes a text between quotation marks, escaped.
pub fn quote(s: &str) -> (r: String)
    ensures
        r@ == quoted(s@),
{
    let cs = chars_of(s);
    let mut inner = String::new();
    let mut k: usize = 0;
    while k < cs.len()
        invariant
            k <= cs@.len(),
            cs@ == s@,
            forall|j: int| 0 <= j < k ==> #[trigger] s@[j] as int <= 127,
            inner@ == escaped_prefix(s@, k as nat),
        decreases cs.len() - k,
    {
        if cs[k] > '\u{7f}' {
            assert(s@[k as int] as int > 127);
            return debug_str(s);
        }
        push_escaped(&mut inner, cs[k]);
        k = k + 1;
    }
    cat3("\"", inner.as_str(), "\"")
}

fn render_list(items: &Vec<String>) -> (r: String)
    ensures
        r@ == listed(text::strs(items@)),
{
    let inner = join(items, ", ");
    cat3("[", inner.as_str(), "]")
}

fn list_case_words(cases: &Vec<String>) -> (r: Vec<String>)
    ensures
        text::strs(r@) == case_words(cases@),
{
    let mut r: Vec<String> = Vec::new();
    let mut k: usize = 0;
    while k < cases.len()
        invariant
            k <= cases@.len(),
            r@.len() == k,
            forall|j: int| 0 <= j < k ==> #[trigger] r@[j]@ == quoted(cases@[j]@),
        decreases cases.len() - k,
    {
        r.push(quote(cases[k].as_str()));
        k = k + 1;
    }
    assert(text::strs(r@) =~= case_words(cases@));
    r
}

/// Describes the shape of a parameter.
pub fn describe_param(p: &ParamShape) -> (r: String)
    ensures
        r@ == param_words(*p),
{
    match p {
        ParamShape::Text => "Text".to_owned(),
        ParamShape::F64 => "F64".to_owned(),
        ParamShape::S32 => "S32".to_owned(),
        ParamShape::S64 => "S64".to_owned(),
        ParamShape::U32 => "U32".to_owned(),
        ParamShape::U64 => "U64".to_owned(),
        ParamShape::Bool => "Bool".to_owned(),
        ParamShape::Blob => "Blob".to_owned(),
        ParamShape::Geom => "Geom".to_owned(),
        ParamShape::Geog => "Geog".to_owned(),
        ParamShape::Raster => "Raster".to_owned(),
        ParamShape::Topology => "Topology".to_owned(),
        ParamShape::OptionNone => "OptionNone".to_owned(),
        ParamShape::ListGeom => "ListGeom".to_owned(),
        ParamShape::ListListU8 => "ListListU8".to_owned(),
        ParamShape::Enum { wit_module, wit_package, kebab_name, cases } => {
            let words = list_case_words(cases);
            let list = render_list(&words);
            let module = quote(wit_module.as_str());
            let package = quote(wit_package.as_str());
            let name = quote(kebab_name.as_str());
            fill4(
                ENUM,
                "wit_module",
                module.as_str(),
                "wit_package",
                package.as_str(),
                "kebab_name",
                name.as_str(),
                "cases",
                list.as_str(),
            )
        },
        ParamShape::ListRecord { kebab_name } => {
            let name = quote(kebab_name.as_str());
            cat3("ListRecord { kebab_name: ", name.as_str(), " }")
        },
        ParamShape::ListPrim(e) => cat3("ListPrim(", describe_elem(e), ")"),
        ParamShape::ListTuple { elements } => {
            let words = list_elem_words(elements);
            let list = render_list(&words);
            cat3("ListTuple { elements: ", list.as_str(), " }")
        },
        ParamShape::ListTupleMixed { elements } => {
            let words = list_mixed_words(elements);
            let list = render_list(&words);
            cat3("ListTupleMixed { elements: ", list.as_str(), " }")
        },
        ParamShape::ListListPrim(e) => cat3("ListListPrim(", describe_elem(e), ")"),
        ParamShape::ListListRecord { kebab_name } => {
            let name = quote(kebab_name.as_str());
            cat3("ListListRecord { kebab_name: ", name.as_str(), " }")
        },
        ParamShape::WitValueRecord { kebab_name, upstream_by_value } => {
            let name = quote(kebab_name.as_str());
            cat3(
                "WitValueRecord { kebab_name: ",
                name.as_str(),
                if *upstream_by_value {
                    ", upstream_by_value: true }"
                } else {
                    ", upstream_by_value: false }"
                },
            )
        },
    }
}

} // verus!
