//! Signatures of tuples of primitives, written as texts with one digit for each element.

use vstd::prelude::*;
use vstd::string::*;

use crate::ir::ListPrimElem;
use crate::text::{self, chars_of};
use crate::words::{self, join};

verus! {

/// The digit of an element, by the order in which the elements are declared.
pub open spec fn digit_of(e: ListPrimElem) -> char {
    match e {
        ListPrimElem::F64 => '0',
        ListPrimElem::F32 => '1',
        ListPrimElem::S32 => '2',
        ListPrimElem::S64 => '3',
        ListPrimElem::U32 => '4',
        ListPrimElem::U64 => '5',
        ListPrimElem::U8 => '6',
        ListPrimElem::Bool => '7',
        ListPrimElem::String => '8',
    }
}

/// The element of a digit.
pub open spec fn elem_of(c: char) -> ListPrimElem {
    if c == '0' {
        ListPrimElem::F64
    } else if c == '1' {
        ListPrimElem::F32
    } else if c == '2' {
        ListPrimElem::S32
    } else if c == '3' {
        ListPrimElem::S64
    } else if c == '4' {
        ListPrimElem::U32
    } else if c == '5' {
        ListPrimElem::U64
    } else if c == '6' {
        ListPrimElem::U8
    } else if c == '7' {
        ListPrimElem::Bool
    } else {
        ListPrimElem::String
    }
}

/// The signature of a tuple.
pub open spec fn signature(elements: Seq<ListPrimElem>) -> Seq<char> {
    elements.map_values(|e: ListPrimElem| digit_of(e))
}

/// The elements of a signature.
pub open spec fn elements_of(sig: Seq<char>) -> Seq<ListPrimElem> {
    sig.map_values(|c: char| elem_of(c))
}

/// A signature gives back the elements that it was made of.
pub proof fn law_signature_keeps_elements(elements: Seq<ListPrimElem>)
    ensures
        elements_of(signature(elements)) == elements,
{
    assert(elements_of(signature(elements)) =~= elements);
}

/// Writes the signature of a tuple.
pub fn write_signature(elements: &Vec<ListPrimElem>) -> (r: String)
    ensures
        r@ == signature(elements@),
{
    let mut r = String::new();
    let mut k: usize = 0;
    while k < elements.len()
        invariant
            k <= elements@.len(),
            r@ == signature(elements@).take(k as int),
        decreases elements.len() - k,
    {
        let c = match elements[k] {
            ListPrimElem::F64 => '0',
            ListPrimElem::F32 => '1',
            ListPrimElem::S32 => '2',
            ListPrimElem::S64 => '3',
            ListPrimElem::U32 => '4',
            ListPrimElem::U64 => '5',
            ListPrimElem::U8 => '6',
            ListPrimElem::Bool => '7',
            ListPrimElem::String => '8',
        };
        r.push(c);
        proof {
            assert(signature(elements@).take(k + 1) =~= signature(elements@).take(k as int).push(c));
        }
        k = k + 1;
    }
    assert(signature(elements@).take(k as int) =~= signature(elements@));
    r
}

/// Reads the elements of a signature.
pub fn read_signature(sig: &str) -> (r: Vec<ListPrimElem>)
    ensures
        r@ == elements_of(sig@),
{
    let cs = chars_of(sig);
    let mut r: Vec<ListPrimElem> = Vec::new();
    let mut k: usize = 0;
    while k < cs.len()
        invariant
            k <= cs@.len(),
            cs@ == sig@,
            r@ == elements_of(sig@).take(k as int),
        decreases cs.len() - k,
    {
        let c = cs[k];
        let e = if c == '0' {
            ListPrimElem::F64
        } else if c == '1' {
            ListPrimElem::F32
        } else if c == '2' {
            ListPrimElem::S32
        } else if c == '3' {
            ListPrimElem::S64
        } else if c == '4' {
            ListPrimElem::U32
        } else if c == '5' {
            ListPrimElem::U64
        } else if c == '6' {
            ListPrimElem::U8
        } else if c == '7' {
            ListPrimElem::Bool
        } else {
            ListPrimElem::String
        };
        r.push(e);
        proof {
            assert(elements_of(sig@).take(k + 1) =~= elements_of(sig@).take(k as int).push(e));
        }
        k = k + 1;
    }
    assert(elements_of(sig@).take(k as int) =~= elements_of(sig@));
    r
}

/// The Rust types of tuple elements.
pub open spec fn rust_types(elements: Seq<ListPrimElem>) -> Seq<Seq<char>> {
    elements.map_values(|e: ListPrimElem| e.rust_type())
}

/// The WIT types of tuple elements.
pub open spec fn wit_types(elements: Seq<ListPrimElem>) -> Seq<Seq<char>> {
    elements.map_values(|e: ListPrimElem| e.wit_type())
}

/// The suffixes of tuple elements.
pub open spec fn suffixes(elements: Seq<ListPrimElem>) -> Seq<Seq<char>> {
    elements.map_values(|e: ListPrimElem| e.suffix())
}

/// A Rust tuple type of these element types: one alone is followed by a comma.
pub open spec fn tuple_type(types: Seq<Seq<char>>) -> Seq<char> {
    if types.len() == 1 {
        "("@ + words::joined(types, ", "@) + ",)"@
    } else {
        "("@ + words::joined(types, ", "@) + ")"@
    }
}

/// Writes a Rust tuple type of these element types.
pub fn render_tuple_type(types: &Vec<String>) -> (r: String)
    ensures
        r@ == tuple_type(text::strs(types@)),
{
    let inner = join(types, ", ");
    if types.len() == 1 {
        text::cat3("(", inner.as_str(), ",)")
    } else {
        text::cat3("(", inner.as_str(), ")")
    }
}

/// Lists the Rust types of tuple elements.
pub fn list_rust_types(elements: &Vec<ListPrimElem>) -> (r: Vec<String>)
    ensures
        text::strs(r@) == rust_types(elements@),
{
    let mut r: Vec<String> = Vec::new();
    let mut k: usize = 0;
    while k < elements.len()
        invariant
            k <= elements@.len(),
            r@.len() == k,
            forall|j: int| 0 <= j < k ==> #[trigger] r@[j]@ == elements@[j].rust_type(),
        decreases elements.len() - k,
    {
        r.push(elements[k].rust_elem().to_owned());
        k = k + 1;
    }
    assert(text::strs(r@) =~= rust_types(elements@));
    r
}

/// Lists the WIT types of tuple elements.
pub fn list_wit_types(elements: &Vec<ListPrimElem>) -> (r: Vec<String>)
    ensures
        text::strs(r@) == wit_types(elements@),
{
    let mut r: Vec<String> = Vec::new();
    let mut k: usize = 0;
    while k < elements.len()
        invariant
            k <= elements@.len(),
            r@.len() == k,
            forall|j: int| 0 <= j < k ==> #[trigger] r@[j]@ == elements@[j].wit_type(),
        decreases elements.len() - k,
    {
        r.push(elements[k].wit_label().to_owned());
        k = k + 1;
    }
    assert(text::strs(r@) =~= wit_types(elements@));
    r
}

/// The suffix of the helper that reads lists of such tuples.
pub open spec fn tuple_suffix(elements: Seq<ListPrimElem>) -> Seq<char> {
    words::joined(suffixes(elements), "_"@)
}

/// Writes the suffix of the helper that reads lists of such tuples.
pub fn list_tuple_sig_suffix(elements: &Vec<ListPrimElem>) -> (r: String)
    ensures
        r@ == tuple_suffix(elements@),
{
    let mut parts: Vec<String> = Vec::new();
    let mut k: usize = 0;
    while k < elements.len()
        invariant
            k <= elements@.len(),
            parts@.len() == k,
            forall|j: int| 0 <= j < k ==> #[trigger] parts@[j]@ == elements@[j].suffix(),
        decreases elements.len() - k,
    {
        parts.push(elements[k].helper_suffix().to_owned());
        k = k + 1;
    }
    assert(text::strs(parts@) =~= suffixes(elements@));
    join(&parts, "_")
}

} // verus!
