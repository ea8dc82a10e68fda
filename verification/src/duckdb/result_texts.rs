//! The texts around the values that results are made into: the only value that they name
//! themselves is null.

use vstd::prelude::*;
use vstd::string::*;

use crate::duckdb::dispatch;
use crate::duckdb::dispatch_templates as t;
use crate::ir::RetShape;
use crate::words;

verus! {

/// Whether a text names no value but null.
pub open spec fn names_only_null(s: Seq<char>) -> bool {
    forall|k: int| #[trigger]
        words::stands_at(s, "Duckvalue::"@, k) ==> words::stands_at(s, "Duckvalue::Null"@, k)
}

/// Whether a value named at `k` is null; the letters `k` and `v` tell where one is named.
spec fn null_at(s: Seq<char>, k: int) -> bool {
    s[k] == 'k' && s[k + 1] == 'v' ==> k + 12 <= s.len() && s[k + 8] == 'N' && s[k + 9] == 'u'
        && s[k + 10] == 'l' && s[k + 11] == 'l'
}

/// Whether all values named before `n` are null.
spec fn null_to(s: Seq<char>, n: nat) -> bool
    decreases n,
{
    n == 0 || (null_to(s, (n - 1) as nat) && null_at(s, n - 1))
}

proof fn lemma_null_to(s: Seq<char>, n: nat, k: int)
    requires
        null_to(s, n),
        0 <= k < n,
    ensures
        null_at(s, k),
    decreases n,
{
    if k < n - 1 {
        lemma_null_to(s, (n - 1) as nat, k);
    }
}

proof fn lemma_names_only_null(s: Seq<char>)
    requires
        null_to(s, s.len()),
    ensures
        names_only_null(s),
{
    reveal_strlit("Duckvalue::");
    reveal_strlit("Duckvalue::Null");
    let name = "Duckvalue::"@;
    let null = "Duckvalue::Null"@;
    assert forall|k: int| #[trigger] words::stands_at(s, name, k) implies words::stands_at(
        s,
        null,
        k,
    ) by {
        let found = s.subrange(k, k + name.len());
        assert forall|j: int| 0 <= j < 11 implies s[k + j] == name[j] by {
            assert(found[j] == s[k + j]);
        }
        assert(s[k + 3] == name[3] && s[k + 4] == name[4]);
        lemma_null_to(s, s.len(), k + 3);
        assert(s.subrange(k, k + null.len()) =~= null);
    }
}

proof fn lemma_ret_plain()
    ensures
        names_only_null(t::RET_PLAIN@),
{
    reveal_strlit("Ok(");
    reveal_with_fuel(null_to, 51);
    let s = t::RET_PLAIN@;
    lemma_names_only_null(s);
}

proof fn lemma_ret_plain_end()
    ensures
        names_only_null(t::RET_PLAIN_END@),
{
    reveal_strlit(")");
    reveal_with_fuel(null_to, 51);
    let s = t::RET_PLAIN_END@;
    lemma_names_only_null(s);
}

proof fn lemma_ret_bound()
    ensures
        names_only_null(t::RET_BOUND@),
{
    reveal_strlit(r#"{{
{i}    let __r = {call_expr}{unwrap_chain};
{i}    Ok("#);
    reveal_with_fuel(null_to, 51);
    let s = t::RET_BOUND@;
    assert(null_to(s, 50));
    lemma_names_only_null(s);
}

proof fn lemma_ret_bound_end()
    ensures
        names_only_null(t::RET_BOUND_END@),
{
    reveal_strlit(r#")
{i}}}"#);
    reveal_with_fuel(null_to, 51);
    let s = t::RET_BOUND_END@;
    lemma_names_only_null(s);
}

proof fn lemma_ret_option()
    ensures
        names_only_null(t::RET_OPTION@),
{
    reveal_strlit(r#"Ok(match {call_expr}{unwrap_chain} {{
{i}    Some(v) => "#);
    reveal_with_fuel(null_to, 51);
    let s = t::RET_OPTION@;
    assert(null_to(s, 50));
    lemma_names_only_null(s);
}

proof fn lemma_ret_option_end()
    ensures
        names_only_null(t::RET_OPTION_END@),
{
    reveal_strlit(r#",
{i}    None => types::Duckvalue::Null,
{i}}})"#);
    reveal_with_fuel(null_to, 51);
    let s = t::RET_OPTION_END@;
    lemma_names_only_null(s);
}

proof fn lemma_ret_first_geom()
    ensures
        names_only_null(t::RET_FIRST_GEOM@),
{
    reveal_strlit(r#"{{
{i}    let __r: Vec<Geometry> = {call_expr}{unwrap_chain};
{i}    match __r.first() {{
{i}        Some(g) => Ok("#);
    reveal_with_fuel(null_to, 51);
    let s = t::RET_FIRST_GEOM@;
    assert(null_to(s, 50));
    assert(null_to(s, 100));
    lemma_names_only_null(s);
}

proof fn lemma_ret_first_raster()
    ensures
        names_only_null(t::RET_FIRST_RASTER@),
{
    reveal_strlit(r#"{{
{i}    let __r = {call_expr}{unwrap_chain};
{i}    match __r.into_iter().next() {{
{i}        Some(r) => Ok("#);
    reveal_with_fuel(null_to, 51);
    let s = t::RET_FIRST_RASTER@;
    assert(null_to(s, 50));
    assert(null_to(s, 100));
    lemma_names_only_null(s);
}

proof fn lemma_ret_first_topology()
    ensures
        names_only_null(t::RET_FIRST_TOPOLOGY@),
{
    reveal_strlit(r#"{{
{i}    let __r = {call_expr}{unwrap_chain};
{i}    match __r.into_iter().next() {{
{i}        Some(t) => Ok("#);
    reveal_with_fuel(null_to, 51);
    let s = t::RET_FIRST_TOPOLOGY@;
    assert(null_to(s, 50));
    assert(null_to(s, 100));
    lemma_names_only_null(s);
}

proof fn lemma_ret_first()
    ensures
        names_only_null(t::RET_FIRST@),
{
    reveal_strlit(r#"{{
{i}    let __r = {call_expr}{unwrap_chain};
{i}    match __r.first() {{
{i}        Some(v) => Ok("#);
    reveal_with_fuel(null_to, 51);
    let s = t::RET_FIRST@;
    assert(null_to(s, 50));
    lemma_names_only_null(s);
}

proof fn lemma_ret_first_text()
    ensures
        names_only_null(t::RET_FIRST_TEXT@),
{
    reveal_strlit(r#"{{
{i}    let __r = {call_expr}{unwrap_chain};
{i}    match __r.into_iter().next() {{
{i}        Some(v) => Ok("#);
    reveal_with_fuel(null_to, 51);
    let s = t::RET_FIRST_TEXT@;
    assert(null_to(s, 50));
    assert(null_to(s, 100));
    lemma_names_only_null(s);
}

proof fn lemma_ret_first_end()
    ensures
        names_only_null(t::RET_FIRST_END@),
{
    reveal_strlit(r#"),
{i}        None => Ok(types::Duckvalue::Null),
{i}    }}
{i}}}"#);
    reveal_with_fuel(null_to, 51);
    let s = t::RET_FIRST_END@;
    assert(null_to(s, 50));
    lemma_names_only_null(s);
}

proof fn lemma_ret_first_option()
    ensures
        names_only_null(t::RET_FIRST_OPTION@),
{
    reveal_strlit(r#"{{
{i}    let __r: Vec<Option<u32>> = {call_expr}{unwrap_chain};
{i}    match __r.first() {{
{i}        Some(Some(v)) => Ok("#);
    reveal_with_fuel(null_to, 51);
    let s = t::RET_FIRST_OPTION@;
    assert(null_to(s, 50));
    assert(null_to(s, 100));
    lemma_names_only_null(s);
}

proof fn lemma_ret_first_option_end()
    ensures
        names_only_null(t::RET_FIRST_OPTION_END@),
{
    reveal_strlit(r#"),
{i}        Some(None) | None => Ok(types::Duckvalue::Null),
{i}    }}
{i}}}"#);
    reveal_with_fuel(null_to, 51);
    let s = t::RET_FIRST_OPTION_END@;
    assert(null_to(s, 50));
    lemma_names_only_null(s);
}

proof fn lemma_ret_bbox()
    ensures
        names_only_null(t::RET_BBOX@),
{
    reveal_strlit(r#"{{
{i}    let __bb = {call_expr}{unwrap_chain};
{i}    let __env = pg_ctor::st_make_envelope(__bb.min_x, __bb.min_y, __bb.max_x, __bb.max_y);
{i}    Ok("#);
    reveal_with_fuel(null_to, 51);
    let s = t::RET_BBOX@;
    assert(null_to(s, 50));
    assert(null_to(s, 100));
    assert(null_to(s, 150));
    lemma_names_only_null(s);
}

proof fn lemma_ret_is_valid_detail()
    ensures
        names_only_null(t::RET_IS_VALID_DETAIL@),
{
    reveal_strlit(r#"{{
{i}    let (__valid, __reason, __loc) = {call_expr}{unwrap_chain};
{i}    let __reason_s = __reason.unwrap_or_default();
{i}    let __loc_s = match __loc {{
{i}        Some(g) => pg_out::st_as_text(&g),
{i}        None => alloc::string::String::new(),
{i}    }};
{i}    Ok("#);
    reveal_with_fuel(null_to, 51);
    let s = t::RET_IS_VALID_DETAIL@;
    assert(null_to(s, 50));
    assert(null_to(s, 100));
    assert(null_to(s, 150));
    assert(null_to(s, 200));
    assert(null_to(s, 250));
    lemma_names_only_null(s);
}

proof fn lemma_ret_is_valid_detail_value()
    ensures
        names_only_null(t::RET_IS_VALID_DETAIL_VALUE@),
{
    reveal_strlit(r#"format!(
{i}        "({{}},\"{{}}\",\"{{}}\")",
{i}        __valid, __reason_s, __loc_s
{i}    )"#);
    reveal_with_fuel(null_to, 51);
    let s = t::RET_IS_VALID_DETAIL_VALUE@;
    assert(null_to(s, 50));
    lemma_names_only_null(s);
}

proof fn lemma_ret_bbox3d()
    ensures
        names_only_null(t::RET_BBOX3D@),
{
    reveal_strlit(r#"{{
{i}    let __bb = {call_expr}{unwrap_chain};
{i}    let mut __wkb: Vec<u8> = Vec::with_capacity(57);
{i}    // ISO-WKB header: little-endian, type 1002 (LINESTRING Z), 2 points.
{i}    __wkb.push(0x01u8);
{i}    __wkb.extend_from_slice(&1002u32.to_le_bytes());
{i}    __wkb.extend_from_slice(&2u32.to_le_bytes());
{i}    __wkb.extend_from_slice(&__bb.min_x.to_le_bytes());
{i}    __wkb.extend_from_slice(&__bb.min_y.to_le_bytes());
{i}    __wkb.extend_from_slice(&__bb.min_z.to_le_bytes());
{i}    __wkb.extend_from_slice(&__bb.max_x.to_le_bytes());
{i}    __wkb.extend_from_slice(&__bb.max_y.to_le_bytes());
{i}    __wkb.extend_from_slice(&__bb.max_z.to_le_bytes());
{i}    Ok("#);
    reveal_with_fuel(null_to, 51);
    let s = t::RET_BBOX3D@;
    assert(null_to(s, 50));
    assert(null_to(s, 100));
    assert(null_to(s, 150));
    assert(null_to(s, 200));
    assert(null_to(s, 250));
    assert(null_to(s, 300));
    assert(null_to(s, 350));
    assert(null_to(s, 400));
    assert(null_to(s, 450));
    assert(null_to(s, 500));
    assert(null_to(s, 550));
    assert(null_to(s, 600));
    assert(null_to(s, 650));
    lemma_names_only_null(s);
}

proof fn lemma_ret_enum()
    ensures
        names_only_null(t::RET_ENUM@),
{
    reveal_strlit(r#"{{
{i}    let __r = {call_expr}{unwrap_chain};
{i}    let __disc: i64 = match __r {{
{arms}{i}    }};
{i}    Ok("#);
    reveal_with_fuel(null_to, 51);
    let s = t::RET_ENUM@;
    assert(null_to(s, 50));
    assert(null_to(s, 100));
    lemma_names_only_null(s);
}

proof fn lemma_ret_json()
    ensures
        names_only_null(t::RET_JSON@),
{
    reveal_strlit(r#"{{
{i}    let __r = {call_expr}{unwrap_chain};
{i}    let __json = serde_json::to_string(&__r)
{i}        .map_err(|e| types::Duckerror::Internal(format!("{sql_name}: encode JSON: {{}}", e)))?;
{i}    Ok("#);
    reveal_with_fuel(null_to, 51);
    let s = t::RET_JSON@;
    assert(null_to(s, 50));
    assert(null_to(s, 100));
    assert(null_to(s, 150));
    assert(null_to(s, 200));
    lemma_names_only_null(s);
}

proof fn lemma_ret_json_option_tuple()
    ensures
        names_only_null(t::RET_JSON_OPTION_TUPLE@),
{
    reveal_strlit(r#"{{
{i}    match {call_expr}{unwrap_chain} {{
{i}        Some(__t) => {{
{i}            let __json = serde_json::to_string(&__t)
{i}                .map_err(|e| types::Duckerror::Internal(format!("{sql_name}: encode JSON: {{}}", e)))?;
{i}            Ok("#);
    reveal_with_fuel(null_to, 51);
    let s = t::RET_JSON_OPTION_TUPLE@;
    assert(null_to(s, 50));
    assert(null_to(s, 100));
    assert(null_to(s, 150));
    assert(null_to(s, 200));
    assert(null_to(s, 250));
    lemma_names_only_null(s);
}

proof fn lemma_ret_json_option_list()
    ensures
        names_only_null(t::RET_JSON_OPTION_LIST@),
{
    reveal_strlit(r#"{{
{i}    match {call_expr}{unwrap_chain} {{
{i}        Some(__v) => {{
{i}            let __json = serde_json::to_string(&__v)
{i}                .map_err(|e| types::Duckerror::Internal(format!("{sql_name}: encode JSON: {{}}", e)))?;
{i}            Ok("#);
    reveal_with_fuel(null_to, 51);
    let s = t::RET_JSON_OPTION_LIST@;
    assert(null_to(s, 50));
    assert(null_to(s, 100));
    assert(null_to(s, 150));
    assert(null_to(s, 200));
    assert(null_to(s, 250));
    lemma_names_only_null(s);
}

proof fn lemma_ret_json_option_end()
    ensures
        names_only_null(t::RET_JSON_OPTION_END@),
{
    reveal_strlit(r#")
{i}        }}
{i}        None => Ok(types::Duckvalue::Null),
{i}    }}
{i}}}"#);
    reveal_with_fuel(null_to, 51);
    let s = t::RET_JSON_OPTION_END@;
    assert(null_to(s, 50));
    lemma_names_only_null(s);
}

proof fn lemma_ret_json_geom_list()
    ensures
        names_only_null(t::RET_JSON_GEOM_LIST@),
{
    reveal_strlit(r#"{{
{i}    let __r = {call_expr}{unwrap_chain};
{i}    let mut __out = alloc::string::String::from("[");
{i}    for (__i, (__g, __v)) in __r.into_iter().enumerate() {{
{i}        if __i > 0 {{ __out.push(','); }}
{i}        let __wkb = __g.as_wkb();
{i}        __out.push_str("[\"");
{i}        for __b in __wkb {{
{i}            use core::fmt::Write as _;
{i}            let _ = write!(&mut __out, "{{:02x}}", __b);
{i}        }}
{i}        __out.push_str("\",");
{i}        let __vj = serde_json::to_string(&__v)
{i}            .map_err(|e| types::Duckerror::Internal(format!("{sql_name}: encode JSON: {{}}", e)))?;
{i}        __out.push_str(&__vj);
{i}        __out.push(']');
{i}    }}
{i}    __out.push(']');
{i}    Ok("#);
    reveal_with_fuel(null_to, 51);
    let s = t::RET_JSON_GEOM_LIST@;
    assert(null_to(s, 50));
    assert(null_to(s, 100));
    assert(null_to(s, 150));
    assert(null_to(s, 200));
    assert(null_to(s, 250));
    assert(null_to(s, 300));
    assert(null_to(s, 350));
    assert(null_to(s, 400));
    assert(null_to(s, 450));
    assert(null_to(s, 500));
    assert(null_to(s, 550));
    assert(null_to(s, 600));
    assert(null_to(s, 650));
    assert(null_to(s, 700));
    lemma_names_only_null(s);
}

proof fn lemma_ret_option_record()
    ensures
        names_only_null(t::RET_OPTION_RECORD@),
{
    reveal_strlit(r#"match {call_expr}{unwrap_chain} {{
{i}    Some(__rec) => "#);
    reveal_with_fuel(null_to, 51);
    let s = t::RET_OPTION_RECORD@;
    assert(null_to(s, 50));
    lemma_names_only_null(s);
}

proof fn lemma_ret_option_record_end()
    ensures
        names_only_null(t::RET_OPTION_RECORD_END@),
{
    reveal_strlit(r#",
{i}    None => Ok(types::Duckvalue::Null),
{i}}}"#);
    reveal_with_fuel(null_to, 51);
    let s = t::RET_OPTION_RECORD_END@;
    lemma_names_only_null(s);
}

proof fn lemma_ret_first_record()
    ensures
        names_only_null(t::RET_FIRST_RECORD@),
{
    reveal_strlit(r#"{{
{i}    let __r = {call_expr}{unwrap_chain};
{i}    let mut __it = __r.into_iter();
{i}    match __it.next() {{
{i}        Some(__rec) => "#);
    reveal_with_fuel(null_to, 51);
    let s = t::RET_FIRST_RECORD@;
    assert(null_to(s, 50));
    assert(null_to(s, 100));
    lemma_names_only_null(s);
}

proof fn lemma_ret_first_record_end()
    ensures
        names_only_null(t::RET_FIRST_RECORD_END@),
{
    reveal_strlit(r#",
{i}        None => Ok(types::Duckvalue::Null),
{i}    }}
{i}}}"#);
    reveal_with_fuel(null_to, 51);
    let s = t::RET_FIRST_RECORD_END@;
    assert(null_to(s, 50));
    lemma_names_only_null(s);
}

proof fn lemma_ret_unit()
    ensures
        names_only_null(t::RET_UNIT@),
{
    reveal_strlit(r#"let _ = {call_expr}{unwrap_chain};
{i}Ok(types::Duckvalue::Null)"#);
    reveal_with_fuel(null_to, 51);
    let s = t::RET_UNIT@;
    assert(null_to(s, 50));
    lemma_names_only_null(s);
}

proof fn lemma_sources_call()
    ensures
        names_only_null("({call_expr}{unwrap_chain}).into()"@),
        names_only_null("{call_expr}.as_binary().into()"@),
        names_only_null("{call_expr}.as_wkb().into()"@),
        names_only_null("{call_expr}.geometry().as_wkb().into()"@),
        names_only_null("{call_expr}.to_bytes().into()"@),
        names_only_null("{call_expr}{unwrap_chain}"@),
        names_only_null("{call_expr}{unwrap_chain} as i64"@),
{
    reveal_with_fuel(null_to, 51);
    reveal_strlit("({call_expr}{unwrap_chain}).into()");
    lemma_names_only_null("({call_expr}{unwrap_chain}).into()"@);
    reveal_strlit("{call_expr}.as_binary().into()");
    lemma_names_only_null("{call_expr}.as_binary().into()"@);
    reveal_strlit("{call_expr}.as_wkb().into()");
    lemma_names_only_null("{call_expr}.as_wkb().into()"@);
    reveal_strlit("{call_expr}.geometry().as_wkb().into()");
    lemma_names_only_null("{call_expr}.geometry().as_wkb().into()"@);
    reveal_strlit("{call_expr}.to_bytes().into()");
    lemma_names_only_null("{call_expr}.to_bytes().into()"@);
    reveal_strlit("{call_expr}{unwrap_chain}");
    lemma_names_only_null("{call_expr}{unwrap_chain}"@);
    reveal_strlit("{call_expr}{unwrap_chain} as i64");
    lemma_names_only_null("{call_expr}{unwrap_chain} as i64"@);
}

proof fn lemma_sources_element()
    ensures
        names_only_null("*v as f64"@),
        names_only_null("*v as i64"@),
        names_only_null("g.as_wkb().into()"@),
        names_only_null("r.as_binary().into()"@),
        names_only_null("t.to_bytes().into()"@),
        names_only_null("v"@),
        names_only_null("v as f64"@),
        names_only_null("v as i64"@),
        names_only_null("v.as_binary().into()"@),
        names_only_null("v.as_wkb().into()"@),
        names_only_null("v.into()"@),
        names_only_null("v.to_bytes().into()"@),
{
    reveal_with_fuel(null_to, 51);
    reveal_strlit("*v as f64");
    lemma_names_only_null("*v as f64"@);
    reveal_strlit("*v as i64");
    lemma_names_only_null("*v as i64"@);
    reveal_strlit("g.as_wkb().into()");
    lemma_names_only_null("g.as_wkb().into()"@);
    reveal_strlit("r.as_binary().into()");
    lemma_names_only_null("r.as_binary().into()"@);
    reveal_strlit("t.to_bytes().into()");
    lemma_names_only_null("t.to_bytes().into()"@);
    reveal_strlit("v");
    lemma_names_only_null("v"@);
    reveal_strlit("v as f64");
    lemma_names_only_null("v as f64"@);
    reveal_strlit("v as i64");
    lemma_names_only_null("v as i64"@);
    reveal_strlit("v.as_binary().into()");
    lemma_names_only_null("v.as_binary().into()"@);
    reveal_strlit("v.as_wkb().into()");
    lemma_names_only_null("v.as_wkb().into()"@);
    reveal_strlit("v.into()");
    lemma_names_only_null("v.into()"@);
    reveal_strlit("v.to_bytes().into()");
    lemma_names_only_null("v.to_bytes().into()"@);
}

proof fn lemma_sources_local()
    ensures
        names_only_null("__disc"@),
        names_only_null("__env.as_wkb().into()"@),
        names_only_null("__json"@),
        names_only_null("__out"@),
        names_only_null("__r.as_binary().into()"@),
        names_only_null("__r.as_wkb().into()"@),
        names_only_null("__r.geometry().as_wkb().into()"@),
        names_only_null("__r.to_bytes().into()"@),
        names_only_null("__r.{element}"@),
        names_only_null("__rec"@),
        names_only_null("__wkb"@),
        names_only_null(""@),
{
    reveal_with_fuel(null_to, 51);
    reveal_strlit("__disc");
    lemma_names_only_null("__disc"@);
    reveal_strlit("__env.as_wkb().into()");
    lemma_names_only_null("__env.as_wkb().into()"@);
    reveal_strlit("__json");
    lemma_names_only_null("__json"@);
    reveal_strlit("__out");
    lemma_names_only_null("__out"@);
    reveal_strlit("__r.as_binary().into()");
    lemma_names_only_null("__r.as_binary().into()"@);
    reveal_strlit("__r.as_wkb().into()");
    lemma_names_only_null("__r.as_wkb().into()"@);
    reveal_strlit("__r.geometry().as_wkb().into()");
    lemma_names_only_null("__r.geometry().as_wkb().into()"@);
    reveal_strlit("__r.to_bytes().into()");
    lemma_names_only_null("__r.to_bytes().into()"@);
    reveal_strlit("__r.{element}");
    lemma_names_only_null("__r.{element}"@);
    reveal_strlit("__rec");
    lemma_names_only_null("__rec"@);
    reveal_strlit("__wkb");
    lemma_names_only_null("__wkb"@);
    reveal_strlit("");
    lemma_names_only_null(""@);
}

/// The texts around the value of a result, and what the value is made from, name no value but
/// null; nor does the text for a result without a value.
pub proof fn law_frames_name_only_null(ret: RetShape, bare: bool)
    ensures
        names_only_null(dispatch::result_frame(ret, bare).0),
        names_only_null(dispatch::result_frame(ret, bare).1),
        names_only_null(dispatch::result_source(ret, bare)),
        names_only_null(t::RET_UNIT@),
{
    lemma_ret_plain();
    lemma_ret_plain_end();
    lemma_ret_bound();
    lemma_ret_bound_end();
    lemma_ret_option();
    lemma_ret_option_end();
    lemma_ret_first_geom();
    lemma_ret_first_raster();
    lemma_ret_first_topology();
    lemma_ret_first();
    lemma_ret_first_text();
    lemma_ret_first_end();
    lemma_ret_first_option();
    lemma_ret_first_option_end();
    lemma_ret_bbox();
    lemma_ret_is_valid_detail();
    lemma_ret_is_valid_detail_value();
    lemma_ret_bbox3d();
    lemma_ret_enum();
    lemma_ret_json();
    lemma_ret_json_option_tuple();
    lemma_ret_json_option_list();
    lemma_ret_json_option_end();
    lemma_ret_json_geom_list();
    lemma_ret_option_record();
    lemma_ret_option_record_end();
    lemma_ret_first_record();
    lemma_ret_first_record_end();
    lemma_ret_unit();
    lemma_sources_call();
    lemma_sources_element();
    lemma_sources_local();
}

} // verus!
