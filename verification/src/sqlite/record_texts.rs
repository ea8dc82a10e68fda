//! What is declared and written of records, enums and the types behind a bridge.

use vstd::prelude::*;
use vstd::string::*;

use crate::gather;
use crate::ir::{ListPrimElem, RecordType};
use crate::packages;
use crate::sqlite::emit_records;
use crate::sqlite::emit_wit;
use crate::sqlite::lib_templates as t;
use crate::sqlite::type_text;
use crate::text;
use crate::tuples;
use crate::words;

verus! {

// ─── Type ids ───

/// The number that a hexadecimal digit stands for.
pub open spec fn nibble(c: char) -> int {
    if '0' <= c && c <= '9' {
        c as int - '0' as int
    } else {
        c as int - 'a' as int + 10
    }
}

/// A byte of a type id is written as a hexadecimal numeral of two digits that stands for it.
pub proof fn law_type_id_byte(b: u8)
    ensures
        ({
            let s = emit_records::hex_byte(b);
            &&& s.len() == 4
            &&& s[0] == '0' && s[1] == 'x'
            &&& 16 * nibble(s[2]) + nibble(s[3]) == b
        }),
{
    reveal_strlit("0x");
    let s = emit_records::hex_byte(b);
    assert(s[2] == emit_records::hex_digit((b / 16) as nat));
    assert(s[3] == emit_records::hex_digit((b % 16) as nat));
    assert(b == 16 * (b / 16) + b % 16);
}

/// A type id is written byte by byte in its order.
pub proof fn law_type_id_text(id: Seq<u8>, parts: Seq<Seq<char>>)
    requires
        parts.len() == id.len(),
        forall|k: int| 0 <= k < id.len() ==> #[trigger] parts[k] == emit_records::hex_byte(id[k]),
    ensures
        emit_records::type_id_text(id) == words::joined(parts, ", "@),
{
    assert(emit_records::type_id_bytes(id) =~= parts);
}

// ─── Records ───

/// What is listed of a record type is its id, its name, and the functions that decode and encode it.
pub proof fn law_typed_value_listed(r: RecordType)
    ensures
        ({
            let s = emit_records::typed_value_entry(r);
            &&& words::has_piece(
                s,
                "type_id: alloc::vec!["@ + emit_records::type_id_text(r.type_id@) + "],"@,
            )
            &&& words::has_piece(
                s,
                "symbolic_name: \""@ + words::escaped(r.symbolic_name@) + "\".into(),"@,
            )
            &&& words::has_piece(
                s,
                "decoder_import: \""@ + words::escaped(r.decoder_import@) + "\".into(),"@,
            )
            &&& words::has_piece(
                s,
                "encoder_import: \""@ + words::escaped(r.encoder_import@) + "\".into(),"@,
            )
        }),
{
    lemma_typed_value_entry(
        emit_records::type_id_text(r.type_id@),
        words::escaped(r.symbolic_name@),
        words::escaped(r.decoder_import@),
        words::escaped(r.encoder_import@),
    );
}

/// A record has one function that decodes its type from bytes, and one that encodes it into bytes.
pub proof fn law_codec_functions(primary: Seq<char>, r: RecordType)
    ensures
        ({
            let s = emit_records::codec(primary, r);
            &&& words::has_piece(
                s,
                "fn "@ + r.snake_name@ + "_from_canon_cbor(bytes: Vec<u8>) -> Result<"@
                    + words::pascal(r.kebab_name@, true) + ", String> "@,
            )
            &&& words::has_piece(
                s,
                "ciborium::de::from_reader::<"@ + words::pascal(r.kebab_name@, true)
                    + ", _>(bytes.as_slice())"@,
            )
            &&& words::has_piece(
                s,
                "fn "@ + r.snake_name@ + "_to_canon_cbor(value: "@
                    + words::pascal(r.kebab_name@, true) + ") -> Vec<u8> "@,
            )
            &&& words::has_piece(s, "ciborium::ser::into_writer(&value, &mut buf)"@)
        }),
{
    let pascal = words::pascal(r.kebab_name@, true);
    let holes = seq![
        ("snake"@, r.snake_name@),
        ("pascal"@, pascal),
        ("primary"@, primary),
        ("kebab"@, r.kebab_name@),
    ];
    lemma_from_canon_cbor(r.snake_name@, pascal, primary, r.kebab_name@);
    lemma_to_canon_cbor(r.snake_name@, pascal, primary, r.kebab_name@);
    words::lemma_pieces_kept(
        text::fill(t::FROM_CANON_CBOR@, holes),
        text::fill(t::TO_CANON_CBOR@, holes),
    );
    words::lemma_pieces_moved(
        text::fill(t::FROM_CANON_CBOR@, holes),
        text::fill(t::TO_CANON_CBOR@, holes),
    );
}

/// A record has a function that reads it from a typed value, one that reads a list of it from a
/// JSON text, and one that makes a typed value of it, with the id and the name that are listed.
/// It is decoded straight into its type where it can be, and else through the local type.
pub proof fn law_record_functions(primary: Seq<char>, bridge_struct: Seq<char>, r: RecordType)
    ensures
        ({
            let s = emit_records::record_helpers(primary, bridge_struct, r);
            let path = gather::upstream_path(r.package@, r.interface@, r.kebab_name@);
            let local = emit_records::local_path(primary, r.kebab_name@);
            &&& words::has_piece(s, "fn arg_witvalue_"@ + r.snake_name@ + "("@)
            &&& words::has_piece(s, "-> Result<"@ + path + ", String> "@)
            &&& words::has_piece(s, "Some(SqlValue::WitValue(p)) => p,"@)
            &&& r.direct ==> words::has_piece(
                s,
                "ciborium::de::from_reader::<"@ + path + ", _>(payload.bytes.as_slice())"@,
            )
            &&& !r.direct ==> words::has_piece(
                s,
                "let __loc: "@ + local + " = <"@ + bridge_struct
                    + " as bindings::exports::sqlink_bridge::"@ + words::snake(primary)
                    + "::serde_ops::Guest>::"@ + r.snake_name@ + "_from_canon_cbor("@,
            )
            &&& !r.direct ==> words::has_piece(s, "ciborium::de::from_reader::<"@ + path + ", _>(__buf.as_slice())"@)
            &&& words::has_piece(s, "fn parse_json_list_record_"@ + r.snake_name@ + "("@)
            &&& words::has_piece(s, "-> Result<Vec<"@ + path + ">, String> "@)
            &&& words::has_piece(s, "serde_json::from_str::<Vec<"@ + path + ">>(text)"@)
            &&& words::has_piece(s, "fn ret_to_witvalue_"@ + r.snake_name@ + "("@)
            &&& words::has_piece(s, "upstream: "@ + path + ","@)
            &&& words::has_piece(
                s,
                "type_id: alloc::vec!["@ + emit_records::type_id_text(r.type_id@) + "],"@,
            )
            &&& words::has_piece(
                s,
                "symbolic_name: \""@ + words::escaped(r.symbolic_name@) + "\".into(),"@,
            )
        }),
{
    let path = gather::upstream_path(r.package@, r.interface@, r.kebab_name@);
    let local = emit_records::local_path(primary, r.kebab_name@);
    let tid = emit_records::type_id_text(r.type_id@);
    let symbolic = words::escaped(r.symbolic_name@);
    lemma_arg_wit_value_direct(r.snake_name@, path);
    lemma_arg_wit_value(r.snake_name@, path, local, bridge_struct, words::snake(primary));
    lemma_parse_list_record(r.snake_name@, path, r.kebab_name@);
    lemma_ret_wit_value(r.snake_name@, path, tid, symbolic);
    words::lemma_pieces_around(
        emit_records::arg_helper(primary, bridge_struct, r),
        text::fill(
            t::PARSE_LIST_RECORD@,
            seq![("snake"@, r.snake_name@), ("upstream_path"@, path), ("kebab"@, r.kebab_name@)],
        ),
        text::fill(
            t::RET_WIT_VALUE@,
            seq![
                ("snake"@, r.snake_name@),
                ("upstream_path"@, path),
                ("tid"@, tid),
                ("symbolic"@, symbolic),
            ],
        ),
    );
}

/// The path of a type names its package, its interface and the type; the local one names the
/// surface of the bridge.
pub proof fn law_type_paths(
    package: Seq<char>,
    interface: Seq<char>,
    kebab_name: Seq<char>,
    primary: Seq<char>,
)
    ensures
        gather::upstream_path(package, interface, kebab_name)
            == "bindings::"@ + packages::ns_module(package) + "::"@ + packages::name_module(package)
                + "::"@ + words::snake(interface) + "::"@ + words::pascal(kebab_name, true),
        emit_records::local_path(primary, kebab_name)
            == "bindings::exports::sqlink_bridge::"@ + words::snake(primary) + "::serde_ops::"@
                + words::pascal(kebab_name, true),
{
    let pascal = words::pascal(kebab_name, true);
    lemma_upstream_path(
        packages::ns_module(package),
        packages::name_module(package),
        words::snake(interface),
        pascal,
    );
    lemma_local_path(words::snake(primary), pascal);
}

/// A module is used under its alias from the package that was told first for the alias.
pub proof fn law_module_used(
    alias: Seq<char>,
    modules: Seq<text::Binding>,
    idents: Seq<text::Binding>,
    ident: Seq<char>,
    pkg: Seq<char>,
)
    requires
        packages::find_from(idents, alias, 0) == Some(ident),
        packages::find_from(modules, alias, 0) == Some(pkg),
    ensures
        gather::use_line(alias, modules, idents)
            == "use bindings::"@ + packages::ns_module(pkg) + "::"@ + packages::name_module(pkg)
                + "::"@ + ident + " as "@ + alias + ";\n"@,
{
    lemma_use_module(packages::ns_module(pkg), packages::name_module(pkg), ident, alias);
}

/// The helper of a tuple bears the names of its elements in their order, reads a list of tuples of
/// their Rust types, and says their WIT types.
pub proof fn law_tuple_helper(
    elements: Seq<ListPrimElem>,
    suffixes: Seq<Seq<char>>,
    types: Seq<Seq<char>>,
    labels: Seq<Seq<char>>,
)
    requires
        suffixes.len() == elements.len(),
        types.len() == elements.len(),
        labels.len() == elements.len(),
        forall|k: int| 0 <= k < elements.len() ==> #[trigger] suffixes[k] == elements[k].suffix(),
        forall|k: int| 0 <= k < elements.len() ==> #[trigger] types[k] == elements[k].rust_type(),
        forall|k: int| 0 <= k < elements.len() ==> #[trigger] labels[k] == elements[k].wit_type(),
    ensures
        ({
            let s = gather::tuple_helper(
                t::TUPLE_HELPER@,
                tuples::tuple_suffix(elements),
                tuples::rust_types(elements),
                tuples::wit_types(elements),
            );
            let suffix = words::joined(suffixes, "_"@);
            let rust_tuple = "("@ + words::joined(types, ", "@) + if types.len() == 1 {
                ",)"@
            } else {
                ")"@
            };
            let wit_label = words::joined(labels, ", "@);
            &&& words::has_piece(
                s,
                "fn parse_json_list_tuple_"@ + suffix
                    + "(args: &[SqlValue], idx: usize, name: &str) -> Result<Vec<"@ + rust_tuple
                    + ">, String> "@,
            )
            &&& words::has_piece(s, "serde_json::from_str::<Vec<"@ + rust_tuple + ">>(text)"@)
            &&& words::has_piece(s, "must be JSON array of ["@ + wit_label + "] tuples"@)
        }),
{
    assert(tuples::suffixes(elements) =~= suffixes);
    assert(tuples::rust_types(elements) =~= types);
    assert(tuples::wit_types(elements) =~= labels);
    lemma_tuple_helper(
        words::joined(suffixes, "_"@),
        tuples::tuple_type(types),
        words::joined(labels, ", "@),
    );
}

// ─── Declarations ───

/// The line of a field in the declaration of its record.
pub open spec fn field_line(f: (String, String), aliases: Seq<(Seq<char>, Seq<char>)>) -> Seq<char> {
    "        "@ + f.0@ + ": "@ + type_text::inlined(f.1@, aliases) + ",\n"@
}

/// A record is declared under its name with its fields in their order, each with its type.
pub proof fn law_record_declared(r: RecordType, aliases: Seq<(Seq<char>, Seq<char>)>, k: int)
    ensures
        ({
            let s = emit_wit::record_text(r, aliases);
            let fields = r.fields@;
            &&& words::stands_at(s, "    record "@ + r.kebab_name@ + " {\n"@, 0)
            &&& 0 <= k < fields.len() ==> words::has_piece(s, field_line(fields[k], aliases))
            &&& 0 <= k < fields.len() - 1 ==> words::has_piece(
                s,
                field_line(fields[k], aliases) + field_line(fields[k + 1], aliases),
            )
        }),
{
    lemma_wit_record_open(r.kebab_name@);
    let open = text::fill(emit_wit::RECORD_OPEN@, seq![("name"@, r.kebab_name@)]);
    let fields = emit_wit::fields_text(r.fields@, aliases, r.fields@.len());
    let s = emit_wit::record_text(r, aliases);
    assert(s.subrange(0, open.len() as int) =~= open);
    words::lemma_pieces_around(open, fields, emit_wit::CLOSE@);
    if 0 <= k < r.fields@.len() {
        lemma_fields(r.fields@, aliases, r.fields@.len(), k);
    }
}

proof fn lemma_fields(
    fields: Seq<(String, String)>,
    aliases: Seq<(Seq<char>, Seq<char>)>,
    n: nat,
    k: int,
)
    requires
        0 <= k < n <= fields.len(),
    ensures
        words::has_piece(
            emit_wit::fields_text(fields, aliases, n),
            field_line(fields[k], aliases),
        ),
        k + 1 < n ==> words::has_piece(
            emit_wit::fields_text(fields, aliases, n),
            field_line(fields[k], aliases) + field_line(fields[k + 1], aliases),
        ),
    decreases n,
{
    let before = emit_wit::fields_text(fields, aliases, (n - 1) as nat);
    let last = field_line(fields[n - 1], aliases);
    lemma_wit_field(fields[n - 1].0@, type_text::inlined(fields[n - 1].1@, aliases));
    if k == n - 1 {
        words::lemma_piece_added(before, last);
    } else {
        lemma_fields(fields, aliases, (n - 1) as nat, k);
        words::lemma_pieces_kept(before, last);
        if k == n - 2 {
            lemma_wit_field(fields[k].0@, type_text::inlined(fields[k].1@, aliases));
            let start = emit_wit::fields_text(fields, aliases, (n - 2) as nat);
            let this = field_line(fields[k], aliases);
            assert(start + this + last =~= start + (this + last));
            words::lemma_piece_added(start, this + last);
        }
    }
}

/// The line of case `k` in the declaration of its enum: all but the last end in a comma.
pub open spec fn case_line(cases: Seq<String>, k: int) -> Seq<char> {
    "        "@ + cases[k]@ + if k + 1 < cases.len() {
        ","@
    } else {
        ""@
    } + "\n"@
}

/// An enum is declared under its name with its cases in their order.
pub proof fn law_enum_declared(name: Seq<char>, cases: Seq<String>, k: int)
    ensures
        ({
            let s = emit_wit::enum_text(name, cases);
            &&& words::stands_at(s, "    enum "@ + name + " {\n"@, 0)
            &&& 0 <= k < cases.len() ==> words::has_piece(s, case_line(cases, k))
            &&& 0 <= k < cases.len() - 1 ==> words::has_piece(
                s,
                case_line(cases, k) + case_line(cases, k + 1),
            )
        }),
{
    lemma_wit_enum_open(name);
    let open = text::fill(emit_wit::ENUM_OPEN@, seq![("name"@, name)]);
    let all = emit_wit::cases_text(cases, cases.len());
    let s = emit_wit::enum_text(name, cases);
    assert(s.subrange(0, open.len() as int) =~= open);
    words::lemma_pieces_around(open, all, emit_wit::CLOSE@);
    if 0 <= k < cases.len() {
        lemma_cases(cases, cases.len(), k);
    }
}

proof fn lemma_cases(cases: Seq<String>, n: nat, k: int)
    requires
        0 <= k < n <= cases.len(),
    ensures
        words::has_piece(emit_wit::cases_text(cases, n), case_line(cases, k)),
        k + 1 < n ==> words::has_piece(
            emit_wit::cases_text(cases, n),
            case_line(cases, k) + case_line(cases, k + 1),
        ),
    decreases n,
{
    let before = emit_wit::cases_text(cases, (n - 1) as nat);
    let last = case_line(cases, n - 1);
    lemma_case_line(cases, n - 1);
    if k == n - 1 {
        words::lemma_piece_added(before, last);
    } else {
        lemma_cases(cases, (n - 1) as nat, k);
        words::lemma_pieces_kept(before, last);
        if k == n - 2 {
            lemma_case_line(cases, k);
            let start = emit_wit::cases_text(cases, (n - 2) as nat);
            let this = case_line(cases, k);
            assert(start + this + last =~= start + (this + last));
            words::lemma_piece_added(start, this + last);
        }
    }
}

proof fn lemma_case_line(cases: Seq<String>, k: int)
    requires
        0 <= k < cases.len(),
    ensures
        text::fill(
            emit_wit::ENUM_CASE@,
            seq![
                ("c"@, cases[k]@),
                (
                    "comma"@,
                    if k + 1 < cases.len() {
                        ","@
                    } else {
                        ""@
                    },
                ),
            ],
        ) == case_line(cases, k),
{
    lemma_wit_enum_case(
        cases[k]@,
        if k + 1 < cases.len() {
            ","@
        } else {
            ""@
        },
    );
}

/// The codec of a record takes bytes and gives the record or a text, and takes the record and
/// gives bytes.
pub proof fn law_codec_declared(name: Seq<char>)
    ensures
        emit_wit::codec_text(name)
            == (
                "    "@ + name + "-from-canon-cbor: func(bytes: list<u8>) -> result<"@ + name
                    + ", string>;\n"@
            ) + ("    "@ + name + "-to-canon-cbor: func(value: "@ + name + ") -> list<u8>;\n"@),
{
    lemma_wit_from_cbor(name);
    lemma_wit_to_cbor(name);
}

proof fn lemma_holes_type_id_symbolic_decoder_encoder(
    type_id: Seq<char>,
    symbolic: Seq<char>,
    decoder: Seq<char>,
    encoder: Seq<char>,
)
    ensures
        ({
            let b = seq![("type_id"@, type_id), ("symbolic"@, symbolic), ("decoder"@, decoder), ("encoder"@, encoder)];
            &&& text::lookup_from(b, "type_id"@, 0) == type_id
            &&& text::lookup_from(b, "symbolic"@, 0) == symbolic
            &&& text::lookup_from(b, "decoder"@, 0) == decoder
            &&& text::lookup_from(b, "encoder"@, 0) == encoder
        }),
{
    reveal_strlit("type_id");
    reveal_strlit("symbolic");
    reveal_strlit("decoder");
    reveal_strlit("encoder");
    reveal_with_fuel(text::lookup_from, 5);
    assert("type_id"@.len() != "symbolic"@.len());
    assert("type_id"@[0] != "decoder"@[0]);
    assert("type_id"@[0] != "encoder"@[0]);
    assert("symbolic"@.len() != "decoder"@.len());
    assert("symbolic"@.len() != "encoder"@.len());
    assert("decoder"@[0] != "encoder"@[0]);
}

proof fn lemma_holes_snake_pascal_primary_kebab(
    snake: Seq<char>,
    pascal: Seq<char>,
    primary: Seq<char>,
    kebab: Seq<char>,
)
    ensures
        ({
            let b = seq![("snake"@, snake), ("pascal"@, pascal), ("primary"@, primary), ("kebab"@, kebab)];
            &&& text::lookup_from(b, "snake"@, 0) == snake
            &&& text::lookup_from(b, "pascal"@, 0) == pascal
            &&& text::lookup_from(b, "primary"@, 0) == primary
            &&& text::lookup_from(b, "kebab"@, 0) == kebab
        }),
{
    reveal_strlit("snake");
    reveal_strlit("pascal");
    reveal_strlit("primary");
    reveal_strlit("kebab");
    reveal_with_fuel(text::lookup_from, 5);
    assert("snake"@.len() != "pascal"@.len());
    assert("snake"@.len() != "primary"@.len());
    assert("snake"@[0] != "kebab"@[0]);
    assert("pascal"@.len() != "primary"@.len());
    assert("pascal"@.len() != "kebab"@.len());
    assert("primary"@.len() != "kebab"@.len());
}

proof fn lemma_holes_primary_snake_pascal(primary_snake: Seq<char>, pascal: Seq<char>)
    ensures
        ({
            let b = seq![("primary_snake"@, primary_snake), ("pascal"@, pascal)];
            &&& text::lookup_from(b, "primary_snake"@, 0) == primary_snake
            &&& text::lookup_from(b, "pascal"@, 0) == pascal
        }),
{
    reveal_strlit("primary_snake");
    reveal_strlit("pascal");
    reveal_with_fuel(text::lookup_from, 3);
    assert("primary_snake"@.len() != "pascal"@.len());
}

proof fn lemma_holes_snake_upstream_path(snake: Seq<char>, upstream_path: Seq<char>)
    ensures
        ({
            let b = seq![("snake"@, snake), ("upstream_path"@, upstream_path)];
            &&& text::lookup_from(b, "snake"@, 0) == snake
            &&& text::lookup_from(b, "upstream_path"@, 0) == upstream_path
        }),
{
    reveal_strlit("snake");
    reveal_strlit("upstream_path");
    reveal_with_fuel(text::lookup_from, 3);
    assert("snake"@.len() != "upstream_path"@.len());
}

proof fn lemma_holes_snake_upstream_path_local_path_bridge_struct_primary_snake(
    snake: Seq<char>,
    upstream_path: Seq<char>,
    local_path: Seq<char>,
    bridge_struct: Seq<char>,
    primary_snake: Seq<char>,
)
    ensures
        ({
            let b = seq![("snake"@, snake), ("upstream_path"@, upstream_path), ("local_path"@, local_path), ("bridge_struct"@, bridge_struct), ("primary_snake"@, primary_snake)];
            &&& text::lookup_from(b, "snake"@, 0) == snake
            &&& text::lookup_from(b, "upstream_path"@, 0) == upstream_path
            &&& text::lookup_from(b, "local_path"@, 0) == local_path
            &&& text::lookup_from(b, "bridge_struct"@, 0) == bridge_struct
            &&& text::lookup_from(b, "primary_snake"@, 0) == primary_snake
        }),
{
    reveal_strlit("snake");
    reveal_strlit("upstream_path");
    reveal_strlit("local_path");
    reveal_strlit("bridge_struct");
    reveal_strlit("primary_snake");
    reveal_with_fuel(text::lookup_from, 6);
    assert("snake"@.len() != "upstream_path"@.len());
    assert("snake"@.len() != "local_path"@.len());
    assert("snake"@.len() != "bridge_struct"@.len());
    assert("snake"@.len() != "primary_snake"@.len());
    assert("upstream_path"@.len() != "local_path"@.len());
    assert("upstream_path"@[0] != "bridge_struct"@[0]);
    assert("upstream_path"@[0] != "primary_snake"@[0]);
    assert("local_path"@.len() != "bridge_struct"@.len());
    assert("local_path"@.len() != "primary_snake"@.len());
    assert("bridge_struct"@[0] != "primary_snake"@[0]);
}

proof fn lemma_holes_snake_upstream_path_kebab(
    snake: Seq<char>,
    upstream_path: Seq<char>,
    kebab: Seq<char>,
)
    ensures
        ({
            let b = seq![("snake"@, snake), ("upstream_path"@, upstream_path), ("kebab"@, kebab)];
            &&& text::lookup_from(b, "snake"@, 0) == snake
            &&& text::lookup_from(b, "upstream_path"@, 0) == upstream_path
            &&& text::lookup_from(b, "kebab"@, 0) == kebab
        }),
{
    reveal_strlit("snake");
    reveal_strlit("upstream_path");
    reveal_strlit("kebab");
    reveal_with_fuel(text::lookup_from, 4);
    assert("snake"@.len() != "upstream_path"@.len());
    assert("snake"@[0] != "kebab"@[0]);
    assert("upstream_path"@.len() != "kebab"@.len());
}

proof fn lemma_holes_snake_upstream_path_tid_symbolic(
    snake: Seq<char>,
    upstream_path: Seq<char>,
    tid: Seq<char>,
    symbolic: Seq<char>,
)
    ensures
        ({
            let b = seq![("snake"@, snake), ("upstream_path"@, upstream_path), ("tid"@, tid), ("symbolic"@, symbolic)];
            &&& text::lookup_from(b, "snake"@, 0) == snake
            &&& text::lookup_from(b, "upstream_path"@, 0) == upstream_path
            &&& text::lookup_from(b, "tid"@, 0) == tid
            &&& text::lookup_from(b, "symbolic"@, 0) == symbolic
        }),
{
    reveal_strlit("snake");
    reveal_strlit("upstream_path");
    reveal_strlit("tid");
    reveal_strlit("symbolic");
    reveal_with_fuel(text::lookup_from, 5);
    assert("snake"@.len() != "upstream_path"@.len());
    assert("snake"@.len() != "tid"@.len());
    assert("snake"@.len() != "symbolic"@.len());
    assert("upstream_path"@.len() != "tid"@.len());
    assert("upstream_path"@.len() != "symbolic"@.len());
    assert("tid"@.len() != "symbolic"@.len());
}

proof fn lemma_holes_name(name: Seq<char>)
    ensures
        ({
            let b = seq![("name"@, name)];
            &&& text::lookup_from(b, "name"@, 0) == name
        }),
{
    reveal_strlit("name");
    reveal_with_fuel(text::lookup_from, 2);

}

proof fn lemma_holes_fname_resolved(fname: Seq<char>, resolved: Seq<char>)
    ensures
        ({
            let b = seq![("fname"@, fname), ("resolved"@, resolved)];
            &&& text::lookup_from(b, "fname"@, 0) == fname
            &&& text::lookup_from(b, "resolved"@, 0) == resolved
        }),
{
    reveal_strlit("fname");
    reveal_strlit("resolved");
    reveal_with_fuel(text::lookup_from, 3);
    assert("fname"@.len() != "resolved"@.len());
}

proof fn lemma_holes_c_comma(c: Seq<char>, comma: Seq<char>)
    ensures
        ({
            let b = seq![("c"@, c), ("comma"@, comma)];
            &&& text::lookup_from(b, "c"@, 0) == c
            &&& text::lookup_from(b, "comma"@, 0) == comma
        }),
{
    reveal_strlit("c");
    reveal_strlit("comma");
    reveal_with_fuel(text::lookup_from, 3);
    assert("c"@.len() != "comma"@.len());
}

proof fn lemma_holes_pkg_ns_pkg_name_module_ident_alias(
    pkg_ns: Seq<char>,
    pkg_name: Seq<char>,
    module_ident: Seq<char>,
    alias: Seq<char>,
)
    ensures
        ({
            let b = seq![("pkg_ns"@, pkg_ns), ("pkg_name"@, pkg_name), ("module_ident"@, module_ident), ("alias"@, alias)];
            &&& text::lookup_from(b, "pkg_ns"@, 0) == pkg_ns
            &&& text::lookup_from(b, "pkg_name"@, 0) == pkg_name
            &&& text::lookup_from(b, "module_ident"@, 0) == module_ident
            &&& text::lookup_from(b, "alias"@, 0) == alias
        }),
{
    reveal_strlit("pkg_ns");
    reveal_strlit("pkg_name");
    reveal_strlit("module_ident");
    reveal_strlit("alias");
    reveal_with_fuel(text::lookup_from, 5);
    assert("pkg_ns"@.len() != "pkg_name"@.len());
    assert("pkg_ns"@.len() != "module_ident"@.len());
    assert("pkg_ns"@.len() != "alias"@.len());
    assert("pkg_name"@.len() != "module_ident"@.len());
    assert("pkg_name"@.len() != "alias"@.len());
    assert("module_ident"@.len() != "alias"@.len());
}

proof fn lemma_holes_ns_name_iface_pascal(
    ns: Seq<char>,
    name: Seq<char>,
    iface: Seq<char>,
    pascal: Seq<char>,
)
    ensures
        ({
            let b = seq![("ns"@, ns), ("name"@, name), ("iface"@, iface), ("pascal"@, pascal)];
            &&& text::lookup_from(b, "ns"@, 0) == ns
            &&& text::lookup_from(b, "name"@, 0) == name
            &&& text::lookup_from(b, "iface"@, 0) == iface
            &&& text::lookup_from(b, "pascal"@, 0) == pascal
        }),
{
    reveal_strlit("ns");
    reveal_strlit("name");
    reveal_strlit("iface");
    reveal_strlit("pascal");
    reveal_with_fuel(text::lookup_from, 5);
    assert("ns"@.len() != "name"@.len());
    assert("ns"@.len() != "iface"@.len());
    assert("ns"@.len() != "pascal"@.len());
    assert("name"@.len() != "iface"@.len());
    assert("name"@.len() != "pascal"@.len());
    assert("iface"@.len() != "pascal"@.len());
}

proof fn lemma_holes_suffix_rust_tuple_wit_label(
    suffix: Seq<char>,
    rust_tuple: Seq<char>,
    wit_label: Seq<char>,
)
    ensures
        ({
            let b = seq![("suffix"@, suffix), ("rust_tuple"@, rust_tuple), ("wit_label"@, wit_label)];
            &&& text::lookup_from(b, "suffix"@, 0) == suffix
            &&& text::lookup_from(b, "rust_tuple"@, 0) == rust_tuple
            &&& text::lookup_from(b, "wit_label"@, 0) == wit_label
        }),
{
    reveal_strlit("suffix");
    reveal_strlit("rust_tuple");
    reveal_strlit("wit_label");
    reveal_with_fuel(text::lookup_from, 4);
    assert("suffix"@.len() != "rust_tuple"@.len());
    assert("suffix"@.len() != "wit_label"@.len());
    assert("rust_tuple"@.len() != "wit_label"@.len());
}

proof fn lemma_typed_value_entry(
    type_id: Seq<char>,
    symbolic: Seq<char>,
    decoder: Seq<char>,
    encoder: Seq<char>,
)
    ensures
        words::has_piece(
            text::fill(
                t::TYPED_VALUE_ENTRY@,
                seq![("type_id"@, type_id), ("symbolic"@, symbolic), ("decoder"@, decoder), ("encoder"@, encoder)],
            ),
            "type_id: alloc::vec!["@ + type_id + "],"@,
        ),
        words::has_piece(
            text::fill(
                t::TYPED_VALUE_ENTRY@,
                seq![("type_id"@, type_id), ("symbolic"@, symbolic), ("decoder"@, decoder), ("encoder"@, encoder)],
            ),
            "symbolic_name: \""@ + symbolic + "\".into(),"@,
        ),
        words::has_piece(
            text::fill(
                t::TYPED_VALUE_ENTRY@,
                seq![("type_id"@, type_id), ("symbolic"@, symbolic), ("decoder"@, decoder), ("encoder"@, encoder)],
            ),
            "decoder_import: \""@ + decoder + "\".into(),"@,
        ),
        words::has_piece(
            text::fill(
                t::TYPED_VALUE_ENTRY@,
                seq![("type_id"@, type_id), ("symbolic"@, symbolic), ("decoder"@, decoder), ("encoder"@, encoder)],
            ),
            "encoder_import: \""@ + encoder + "\".into(),"@,
        ),
{
    let s = t::TYPED_VALUE_ENTRY@;
    reveal_strlit(r#"            TypedValueBinding {{
                type_id: alloc::vec![{type_id}],
                symbolic_name: "{symbolic}".into(),
                decoder_import: "{decoder}".into(),
                encoder_import: "{encoder}".into(),
            }},
"#);
    reveal_with_fuel(text::plain_to, 31);
    let b = seq![("type_id"@, type_id), ("symbolic"@, symbolic), ("decoder"@, decoder), ("encoder"@, encoder)];
    lemma_holes_type_id_symbolic_decoder_encoder(type_id, symbolic, decoder, encoder);
    assert(words::has_piece(
        text::fill(t::TYPED_VALUE_ENTRY@, b),
        "type_id: alloc::vec!["@ + type_id + "],"@,
    )) by {
        let before = text::lemma_fill_reaches(s, b, 0);
        reveal_strlit("            TypedValueBinding ");
        assert(s.subrange(0, 30) =~= "            TypedValueBinding "@);
        text::lemma_fill_run(s, b, 0, "            TypedValueBinding "@);
        assert(text::fill_from(s, b, 30) == seq!['{'] + text::fill_from(s, b, 32));
        reveal_strlit("\n                ");
        assert(s.subrange(32, 49) =~= "\n                "@);
        text::lemma_fill_run(s, b, 32, "\n                "@);
        reveal_strlit("type_id: alloc::vec![");
        assert(s.subrange(49, 70) =~= "type_id: alloc::vec!["@);
        text::lemma_fill_run(s, b, 49, "type_id: alloc::vec!["@);
        reveal_strlit("type_id");
        assert(s.subrange(71, 78) =~= "type_id"@);
        text::lemma_fill_hole(s, b, 70, "type_id"@);
        reveal_strlit("],");
        assert(s.subrange(79, 81) =~= "],"@);
        text::lemma_fill_run(s, b, 79, "],"@);
        let rest = text::fill_from(s, b, 81);
        let part = "type_id: alloc::vec!["@ + type_id + "],"@;
        assert(("type_id: alloc::vec!["@ + (type_id + ("],"@ + rest))) =~= part + rest);
        assert(before
            + (
                "            TypedValueBinding "@
                    + (seq!['{'] + ("\n                "@ + (part + rest)))
            )
            =~= (before + "            TypedValueBinding "@ + seq!['{'] + "\n                "@)
                + (part + rest));
        words::lemma_piece_between(
            before + "            TypedValueBinding "@ + seq!['{'] + "\n                "@,
            part,
            rest,
        );
    }
    assert(words::has_piece(
        text::fill(t::TYPED_VALUE_ENTRY@, b),
        "symbolic_name: \""@ + symbolic + "\".into(),"@,
    )) by {
        let before = text::lemma_fill_reaches(s, b, 79);
        reveal_strlit("],\n                ");
        assert(s.subrange(79, 98) =~= "],\n                "@);
        text::lemma_fill_run(s, b, 79, "],\n                "@);
        reveal_strlit("symbolic_name: \"");
        assert(s.subrange(98, 114) =~= "symbolic_name: \""@);
        text::lemma_fill_run(s, b, 98, "symbolic_name: \""@);
        reveal_strlit("symbolic");
        assert(s.subrange(115, 123) =~= "symbolic"@);
        text::lemma_fill_hole(s, b, 114, "symbolic"@);
        reveal_strlit("\".into(),");
        assert(s.subrange(124, 133) =~= "\".into(),"@);
        text::lemma_fill_run(s, b, 124, "\".into(),"@);
        let rest = text::fill_from(s, b, 133);
        let part = "symbolic_name: \""@ + symbolic + "\".into(),"@;
        assert(("symbolic_name: \""@ + (symbolic + ("\".into(),"@ + rest))) =~= part + rest);
        assert(before + ("],\n                "@ + (part + rest))
            =~= (before + "],\n                "@) + (part + rest));
        words::lemma_piece_between(before + "],\n                "@, part, rest);
    }
    assert(words::has_piece(
        text::fill(t::TYPED_VALUE_ENTRY@, b),
        "decoder_import: \""@ + decoder + "\".into(),"@,
    )) by {
        let before = text::lemma_fill_reaches(s, b, 124);
        reveal_strlit("\".into(),\n                ");
        assert(s.subrange(124, 150) =~= "\".into(),\n                "@);
        text::lemma_fill_run(s, b, 124, "\".into(),\n                "@);
        reveal_strlit("decoder_import: \"");
        assert(s.subrange(150, 167) =~= "decoder_import: \""@);
        text::lemma_fill_run(s, b, 150, "decoder_import: \""@);
        reveal_strlit("decoder");
        assert(s.subrange(168, 175) =~= "decoder"@);
        text::lemma_fill_hole(s, b, 167, "decoder"@);
        reveal_strlit("\".into(),");
        assert(s.subrange(176, 185) =~= "\".into(),"@);
        text::lemma_fill_run(s, b, 176, "\".into(),"@);
        let rest = text::fill_from(s, b, 185);
        let part = "decoder_import: \""@ + decoder + "\".into(),"@;
        assert(("decoder_import: \""@ + (decoder + ("\".into(),"@ + rest))) =~= part + rest);
        assert(before + ("\".into(),\n                "@ + (part + rest))
            =~= (before + "\".into(),\n                "@) + (part + rest));
        words::lemma_piece_between(before + "\".into(),\n                "@, part, rest);
    }
    assert(words::has_piece(
        text::fill(t::TYPED_VALUE_ENTRY@, b),
        "encoder_import: \""@ + encoder + "\".into(),"@,
    )) by {
        let before = text::lemma_fill_reaches(s, b, 176);
        reveal_strlit("\".into(),\n                ");
        assert(s.subrange(176, 202) =~= "\".into(),\n                "@);
        text::lemma_fill_run(s, b, 176, "\".into(),\n                "@);
        reveal_strlit("encoder_import: \"");
        assert(s.subrange(202, 219) =~= "encoder_import: \""@);
        text::lemma_fill_run(s, b, 202, "encoder_import: \""@);
        reveal_strlit("encoder");
        assert(s.subrange(220, 227) =~= "encoder"@);
        text::lemma_fill_hole(s, b, 219, "encoder"@);
        reveal_strlit("\".into(),");
        assert(s.subrange(228, 237) =~= "\".into(),"@);
        text::lemma_fill_run(s, b, 228, "\".into(),"@);
        let rest = text::fill_from(s, b, 237);
        let part = "encoder_import: \""@ + encoder + "\".into(),"@;
        assert(("encoder_import: \""@ + (encoder + ("\".into(),"@ + rest))) =~= part + rest);
        assert(before + ("\".into(),\n                "@ + (part + rest))
            =~= (before + "\".into(),\n                "@) + (part + rest));
        words::lemma_piece_between(before + "\".into(),\n                "@, part, rest);
    }
}

proof fn lemma_from_canon_cbor(
    snake: Seq<char>,
    pascal: Seq<char>,
    primary: Seq<char>,
    kebab: Seq<char>,
)
    ensures
        words::has_piece(
            text::fill(
                t::FROM_CANON_CBOR@,
                seq![("snake"@, snake), ("pascal"@, pascal), ("primary"@, primary), ("kebab"@, kebab)],
            ),
            "fn "@ + snake + "_from_canon_cbor(bytes: Vec<u8>) -> Result<"@ + pascal
                + ", String> "@,
        ),
        words::has_piece(
            text::fill(
                t::FROM_CANON_CBOR@,
                seq![("snake"@, snake), ("pascal"@, pascal), ("primary"@, primary), ("kebab"@, kebab)],
            ),
            "ciborium::de::from_reader::<"@ + pascal + ", _>(bytes.as_slice())"@,
        ),
{
    let s = t::FROM_CANON_CBOR@;
    reveal_strlit(r#"    fn {snake}_from_canon_cbor(bytes: Vec<u8>) -> Result<{pascal}, String> {{
        ciborium::de::from_reader::<{pascal}, _>(bytes.as_slice())
            .map_err(|e| format!("{primary} {kebab}: canon-cbor decode: {{e}}"))
    }}
"#);
    reveal_with_fuel(text::plain_to, 31);
    let b = seq![("snake"@, snake), ("pascal"@, pascal), ("primary"@, primary), ("kebab"@, kebab)];
    lemma_holes_snake_pascal_primary_kebab(snake, pascal, primary, kebab);
    assert(words::has_piece(
        text::fill(t::FROM_CANON_CBOR@, b),
        "fn "@ + snake + "_from_canon_cbor(bytes: Vec<u8>) -> Result<"@ + pascal + ", String> "@,
    )) by {
        let before = text::lemma_fill_reaches(s, b, 0);
        reveal_strlit("    ");
        assert(s.subrange(0, 4) =~= "    "@);
        text::lemma_fill_run(s, b, 0, "    "@);
        reveal_strlit("fn ");
        assert(s.subrange(4, 7) =~= "fn "@);
        text::lemma_fill_run(s, b, 4, "fn "@);
        reveal_strlit("snake");
        assert(s.subrange(8, 13) =~= "snake"@);
        text::lemma_fill_hole(s, b, 7, "snake"@);
        reveal_strlit("_from_canon_cbor(bytes: Vec<u8");
        assert(s.subrange(14, 44) =~= "_from_canon_cbor(bytes: Vec<u8"@);
        text::lemma_fill_run(s, b, 14, "_from_canon_cbor(bytes: Vec<u8"@);
        reveal_strlit(">) -> Result<");
        assert(s.subrange(44, 57) =~= ">) -> Result<"@);
        text::lemma_fill_run(s, b, 44, ">) -> Result<"@);
        reveal_strlit("pascal");
        assert(s.subrange(58, 64) =~= "pascal"@);
        text::lemma_fill_hole(s, b, 57, "pascal"@);
        reveal_strlit(", String> ");
        assert(s.subrange(65, 75) =~= ", String> "@);
        text::lemma_fill_run(s, b, 65, ", String> "@);
        let rest = text::fill_from(s, b, 75);
        let part = "fn "@ + snake + "_from_canon_cbor(bytes: Vec<u8>) -> Result<"@ + pascal + ", String> "@;
        reveal_strlit("_from_canon_cbor(bytes: Vec<u8>) -> Result<");
        assert((
            "fn "@
                + (
                    snake
                        + (
                            "_from_canon_cbor(bytes: Vec<u8"@
                                + (">) -> Result<"@ + (pascal + (", String> "@ + rest)))
                        )
                )
        )
            =~= part + rest);
        assert(before + ("    "@ + (part + rest)) =~= (before + "    "@) + (part + rest));
        words::lemma_piece_between(before + "    "@, part, rest);
    }
    assert(words::has_piece(
        text::fill(t::FROM_CANON_CBOR@, b),
        "ciborium::de::from_reader::<"@ + pascal + ", _>(bytes.as_slice())"@,
    )) by {
        let before = text::lemma_fill_reaches(s, b, 65);
        reveal_strlit(", String> ");
        assert(s.subrange(65, 75) =~= ", String> "@);
        text::lemma_fill_run(s, b, 65, ", String> "@);
        assert(text::fill_from(s, b, 75) == seq!['{'] + text::fill_from(s, b, 77));
        reveal_strlit("\n        ");
        assert(s.subrange(77, 86) =~= "\n        "@);
        text::lemma_fill_run(s, b, 77, "\n        "@);
        reveal_strlit("ciborium::de::from_reader::<");
        assert(s.subrange(86, 114) =~= "ciborium::de::from_reader::<"@);
        text::lemma_fill_run(s, b, 86, "ciborium::de::from_reader::<"@);
        reveal_strlit("pascal");
        assert(s.subrange(115, 121) =~= "pascal"@);
        text::lemma_fill_hole(s, b, 114, "pascal"@);
        reveal_strlit(", _>(bytes.as_slice())");
        assert(s.subrange(122, 144) =~= ", _>(bytes.as_slice())"@);
        text::lemma_fill_run(s, b, 122, ", _>(bytes.as_slice())"@);
        let rest = text::fill_from(s, b, 144);
        let part = "ciborium::de::from_reader::<"@ + pascal + ", _>(bytes.as_slice())"@;
        assert(("ciborium::de::from_reader::<"@ + (pascal + (", _>(bytes.as_slice())"@ + rest)))
            =~= part + rest);
        assert(before + (", String> "@ + (seq!['{'] + ("\n        "@ + (part + rest))))
            =~= (before + ", String> "@ + seq!['{'] + "\n        "@) + (part + rest));
        words::lemma_piece_between(before + ", String> "@ + seq!['{'] + "\n        "@, part, rest);
    }
}

proof fn lemma_to_canon_cbor(
    snake: Seq<char>,
    pascal: Seq<char>,
    primary: Seq<char>,
    kebab: Seq<char>,
)
    ensures
        words::has_piece(
            text::fill(
                t::TO_CANON_CBOR@,
                seq![("snake"@, snake), ("pascal"@, pascal), ("primary"@, primary), ("kebab"@, kebab)],
            ),
            "fn "@ + snake + "_to_canon_cbor(value: "@ + pascal + ") -> Vec<u8> "@,
        ),
        words::has_piece(
            text::fill(
                t::TO_CANON_CBOR@,
                seq![("snake"@, snake), ("pascal"@, pascal), ("primary"@, primary), ("kebab"@, kebab)],
            ),
            "ciborium::ser::into_writer(&value, &mut buf)"@,
        ),
{
    let s = t::TO_CANON_CBOR@;
    reveal_strlit(r#"    fn {snake}_to_canon_cbor(value: {pascal}) -> Vec<u8> {{
        let mut buf: Vec<u8> = Vec::new();
        ciborium::ser::into_writer(&value, &mut buf)
            .expect("{primary} {kebab}: canon-cbor encode into Vec<u8> cannot IO-fail");
        buf
    }}
"#);
    reveal_with_fuel(text::plain_to, 31);
    let b = seq![("snake"@, snake), ("pascal"@, pascal), ("primary"@, primary), ("kebab"@, kebab)];
    lemma_holes_snake_pascal_primary_kebab(snake, pascal, primary, kebab);
    assert(words::has_piece(
        text::fill(t::TO_CANON_CBOR@, b),
        "fn "@ + snake + "_to_canon_cbor(value: "@ + pascal + ") -> Vec<u8> "@,
    )) by {
        let before = text::lemma_fill_reaches(s, b, 0);
        reveal_strlit("    ");
        assert(s.subrange(0, 4) =~= "    "@);
        text::lemma_fill_run(s, b, 0, "    "@);
        reveal_strlit("fn ");
        assert(s.subrange(4, 7) =~= "fn "@);
        text::lemma_fill_run(s, b, 4, "fn "@);
        reveal_strlit("snake");
        assert(s.subrange(8, 13) =~= "snake"@);
        text::lemma_fill_hole(s, b, 7, "snake"@);
        reveal_strlit("_to_canon_cbor(value: ");
        assert(s.subrange(14, 36) =~= "_to_canon_cbor(value: "@);
        text::lemma_fill_run(s, b, 14, "_to_canon_cbor(value: "@);
        reveal_strlit("pascal");
        assert(s.subrange(37, 43) =~= "pascal"@);
        text::lemma_fill_hole(s, b, 36, "pascal"@);
        reveal_strlit(") -> Vec<u8> ");
        assert(s.subrange(44, 57) =~= ") -> Vec<u8> "@);
        text::lemma_fill_run(s, b, 44, ") -> Vec<u8> "@);
        let rest = text::fill_from(s, b, 57);
        let part = "fn "@ + snake + "_to_canon_cbor(value: "@ + pascal + ") -> Vec<u8> "@;
        assert(("fn "@ + (snake + ("_to_canon_cbor(value: "@ + (pascal + (") -> Vec<u8> "@ + rest)))))
            =~= part + rest);
        assert(before + ("    "@ + (part + rest)) =~= (before + "    "@) + (part + rest));
        words::lemma_piece_between(before + "    "@, part, rest);
    }
    assert(words::has_piece(
        text::fill(t::TO_CANON_CBOR@, b),
        "ciborium::ser::into_writer(&value, &mut buf)"@,
    )) by {
        let before = text::lemma_fill_reaches(s, b, 44);
        reveal_strlit(") -> Vec<u8> ");
        assert(s.subrange(44, 57) =~= ") -> Vec<u8> "@);
        text::lemma_fill_run(s, b, 44, ") -> Vec<u8> "@);
        assert(text::fill_from(s, b, 57) == seq!['{'] + text::fill_from(s, b, 59));
        reveal_strlit("\n        let mut buf: Vec<u8> ");
        assert(s.subrange(59, 89) =~= "\n        let mut buf: Vec<u8> "@);
        text::lemma_fill_run(s, b, 59, "\n        let mut buf: Vec<u8> "@);
        reveal_strlit("= Vec::new();\n        ");
        assert(s.subrange(89, 111) =~= "= Vec::new();\n        "@);
        text::lemma_fill_run(s, b, 89, "= Vec::new();\n        "@);
        reveal_strlit("ciborium::ser::into_writer(&va");
        assert(s.subrange(111, 141) =~= "ciborium::ser::into_writer(&va"@);
        text::lemma_fill_run(s, b, 111, "ciborium::ser::into_writer(&va"@);
        reveal_strlit("lue, &mut buf)");
        assert(s.subrange(141, 155) =~= "lue, &mut buf)"@);
        text::lemma_fill_run(s, b, 141, "lue, &mut buf)"@);
        let rest = text::fill_from(s, b, 155);
        let part = "ciborium::ser::into_writer(&value, &mut buf)"@;
        reveal_strlit("ciborium::ser::into_writer(&value, &mut buf)");
        assert(("ciborium::ser::into_writer(&va"@ + ("lue, &mut buf)"@ + rest)) =~= part + rest);
        assert(before
            + (
                ") -> Vec<u8> "@
                    + (
                        seq!['{']
                            + (
                                "\n        let mut buf: Vec<u8> "@
                                    + ("= Vec::new();\n        "@ + (part + rest))
                            )
                    )
            )
            =~= (
                before + ") -> Vec<u8> "@ + seq!['{'] + "\n        let mut buf: Vec<u8> "@
                    + "= Vec::new();\n        "@
            ) + (part + rest));
        words::lemma_piece_between(
            before + ") -> Vec<u8> "@ + seq!['{'] + "\n        let mut buf: Vec<u8> "@
                + "= Vec::new();\n        "@,
            part,
            rest,
        );
    }
}

proof fn lemma_local_path(primary_snake: Seq<char>, pascal: Seq<char>)
    ensures
        text::fill(t::LOCAL_PATH@, seq![("primary_snake"@, primary_snake), ("pascal"@, pascal)])
            == "bindings::exports::sqlink_bridge::"@ + primary_snake + "::serde_ops::"@ + pascal,
{
    let s = t::LOCAL_PATH@;
    let b = seq![("primary_snake"@, primary_snake), ("pascal"@, pascal)];
    reveal_strlit("bindings::exports::sqlink_bridge::{primary_snake}::serde_ops::{pascal}");
    reveal_with_fuel(text::plain_to, 31);
    lemma_holes_primary_snake_pascal(primary_snake, pascal);
    reveal_strlit("bindings::exports::sqlink_brid");
    assert(s.subrange(0, 30) =~= "bindings::exports::sqlink_brid"@);
    text::lemma_fill_run(s, b, 0, "bindings::exports::sqlink_brid"@);
    reveal_strlit("ge::");
    assert(s.subrange(30, 34) =~= "ge::"@);
    text::lemma_fill_run(s, b, 30, "ge::"@);
    reveal_strlit("primary_snake");
    assert(s.subrange(35, 48) =~= "primary_snake"@);
    text::lemma_fill_hole(s, b, 34, "primary_snake"@);
    reveal_strlit("::serde_ops::");
    assert(s.subrange(49, 62) =~= "::serde_ops::"@);
    text::lemma_fill_run(s, b, 49, "::serde_ops::"@);
    reveal_strlit("pascal");
    assert(s.subrange(63, 69) =~= "pascal"@);
    text::lemma_fill_hole(s, b, 62, "pascal"@);
    reveal_strlit("bindings::exports::sqlink_bridge::");
    assert((
        "bindings::exports::sqlink_brid"@
            + ("ge::"@ + (primary_snake + ("::serde_ops::"@ + (pascal + text::fill_from(s, b, 70)))))
    )
        =~= "bindings::exports::sqlink_bridge::"@ + primary_snake + "::serde_ops::"@ + pascal);
}

proof fn lemma_arg_wit_value_direct(snake: Seq<char>, upstream_path: Seq<char>)
    ensures
        words::has_piece(
            text::fill(
                t::ARG_WIT_VALUE_DIRECT@,
                seq![("snake"@, snake), ("upstream_path"@, upstream_path)],
            ),
            "fn arg_witvalue_"@ + snake + "("@,
        ),
        words::has_piece(
            text::fill(
                t::ARG_WIT_VALUE_DIRECT@,
                seq![("snake"@, snake), ("upstream_path"@, upstream_path)],
            ),
            "-> Result<"@ + upstream_path + ", String> "@,
        ),
        words::has_piece(
            text::fill(
                t::ARG_WIT_VALUE_DIRECT@,
                seq![("snake"@, snake), ("upstream_path"@, upstream_path)],
            ),
            "Some(SqlValue::WitValue(p)) => p,"@,
        ),
        words::has_piece(
            text::fill(
                t::ARG_WIT_VALUE_DIRECT@,
                seq![("snake"@, snake), ("upstream_path"@, upstream_path)],
            ),
            "ciborium::de::from_reader::<"@ + upstream_path + ", _>(payload.bytes.as_slice())"@,
        ),
{
    let s = t::ARG_WIT_VALUE_DIRECT@;
    reveal_strlit(r#"#[allow(dead_code)]
fn arg_witvalue_{snake}(
    args: &[SqlValue],
    idx: usize,
    name: &str,
) -> Result<{upstream_path}, String> {{
    let payload = match args.get(idx) {{
        Some(SqlValue::WitValue(p)) => p,
        _ => return Err(format!("{{name}}: arg {{idx}} must be WIT-VALUE")),
    }};
    // Task #523 short-circuit: LOCAL serde-ops type
    // is byte-compatible with UPSTREAM (verified at
    // codegen time via record_registry's `direct`
    // fix-point). Decode straight into UPSTREAM.
    ciborium::de::from_reader::<{upstream_path}, _>(payload.bytes.as_slice())
        .map_err(|e| format!("{{name}}: decode arg {{idx}}: {{}}", e))
}}

"#);
    reveal_with_fuel(text::plain_to, 31);
    let b = seq![("snake"@, snake), ("upstream_path"@, upstream_path)];
    lemma_holes_snake_upstream_path(snake, upstream_path);
    assert(words::has_piece(text::fill(t::ARG_WIT_VALUE_DIRECT@, b), "fn arg_witvalue_"@ + snake + "("@)) by {
        let before = text::lemma_fill_reaches(s, b, 0);
        reveal_strlit("#[allow(dead_code)]\n");
        assert(s.subrange(0, 20) =~= "#[allow(dead_code)]\n"@);
        text::lemma_fill_run(s, b, 0, "#[allow(dead_code)]\n"@);
        reveal_strlit("fn arg_witvalue_");
        assert(s.subrange(20, 36) =~= "fn arg_witvalue_"@);
        text::lemma_fill_run(s, b, 20, "fn arg_witvalue_"@);
        reveal_strlit("snake");
        assert(s.subrange(37, 42) =~= "snake"@);
        text::lemma_fill_hole(s, b, 36, "snake"@);
        reveal_strlit("(");
        assert(s.subrange(43, 44) =~= "("@);
        text::lemma_fill_run(s, b, 43, "("@);
        let rest = text::fill_from(s, b, 44);
        let part = "fn arg_witvalue_"@ + snake + "("@;
        assert(("fn arg_witvalue_"@ + (snake + ("("@ + rest))) =~= part + rest);
        assert(before + ("#[allow(dead_code)]\n"@ + (part + rest))
            =~= (before + "#[allow(dead_code)]\n"@) + (part + rest));
        words::lemma_piece_between(before + "#[allow(dead_code)]\n"@, part, rest);
    }
    assert(words::has_piece(
        text::fill(t::ARG_WIT_VALUE_DIRECT@, b),
        "-> Result<"@ + upstream_path + ", String> "@,
    )) by {
        let before = text::lemma_fill_reaches(s, b, 43);
        reveal_strlit("(\n    args: &[SqlValue],\n    i");
        assert(s.subrange(43, 73) =~= "(\n    args: &[SqlValue],\n    i"@);
        text::lemma_fill_run(s, b, 43, "(\n    args: &[SqlValue],\n    i"@);
        reveal_strlit("dx: usize,\n    name: &str,\n) ");
        assert(s.subrange(73, 102) =~= "dx: usize,\n    name: &str,\n) "@);
        text::lemma_fill_run(s, b, 73, "dx: usize,\n    name: &str,\n) "@);
        reveal_strlit("-> Result<");
        assert(s.subrange(102, 112) =~= "-> Result<"@);
        text::lemma_fill_run(s, b, 102, "-> Result<"@);
        reveal_strlit("upstream_path");
        assert(s.subrange(113, 126) =~= "upstream_path"@);
        text::lemma_fill_hole(s, b, 112, "upstream_path"@);
        reveal_strlit(", String> ");
        assert(s.subrange(127, 137) =~= ", String> "@);
        text::lemma_fill_run(s, b, 127, ", String> "@);
        let rest = text::fill_from(s, b, 137);
        let part = "-> Result<"@ + upstream_path + ", String> "@;
        assert(("-> Result<"@ + (upstream_path + (", String> "@ + rest))) =~= part + rest);
        assert(before
            + (
                "(\n    args: &[SqlValue],\n    i"@
                    + ("dx: usize,\n    name: &str,\n) "@ + (part + rest))
            )
            =~= (before + "(\n    args: &[SqlValue],\n    i"@ + "dx: usize,\n    name: &str,\n) "@)
                + (part + rest));
        words::lemma_piece_between(
            before + "(\n    args: &[SqlValue],\n    i"@ + "dx: usize,\n    name: &str,\n) "@,
            part,
            rest,
        );
    }
    assert(words::has_piece(text::fill(t::ARG_WIT_VALUE_DIRECT@, b), "Some(SqlValue::WitValue(p)) => p,"@)) by {
        let before = text::lemma_fill_reaches(s, b, 127);
        reveal_strlit(", String> ");
        assert(s.subrange(127, 137) =~= ", String> "@);
        text::lemma_fill_run(s, b, 127, ", String> "@);
        assert(text::fill_from(s, b, 137) == seq!['{'] + text::fill_from(s, b, 139));
        reveal_strlit("\n    let payload = match args.");
        assert(s.subrange(139, 169) =~= "\n    let payload = match args."@);
        text::lemma_fill_run(s, b, 139, "\n    let payload = match args."@);
        reveal_strlit("get(idx) ");
        assert(s.subrange(169, 178) =~= "get(idx) "@);
        text::lemma_fill_run(s, b, 169, "get(idx) "@);
        assert(text::fill_from(s, b, 178) == seq!['{'] + text::fill_from(s, b, 180));
        reveal_strlit("\n        ");
        assert(s.subrange(180, 189) =~= "\n        "@);
        text::lemma_fill_run(s, b, 180, "\n        "@);
        reveal_strlit("Some(SqlValue::WitValue(p)) =>");
        assert(s.subrange(189, 219) =~= "Some(SqlValue::WitValue(p)) =>"@);
        text::lemma_fill_run(s, b, 189, "Some(SqlValue::WitValue(p)) =>"@);
        reveal_strlit(" p,");
        assert(s.subrange(219, 222) =~= " p,"@);
        text::lemma_fill_run(s, b, 219, " p,"@);
        let rest = text::fill_from(s, b, 222);
        let part = "Some(SqlValue::WitValue(p)) => p,"@;
        reveal_strlit("Some(SqlValue::WitValue(p)) => p,");
        assert(("Some(SqlValue::WitValue(p)) =>"@ + (" p,"@ + rest)) =~= part + rest);
        assert(before
            + (
                ", String> "@
                    + (
                        seq!['{']
                            + (
                                "\n    let payload = match args."@
                                    + ("get(idx) "@ + (seq!['{'] + ("\n        "@ + (part + rest))))
                            )
                    )
            )
            =~= (
                before + ", String> "@ + seq!['{'] + "\n    let payload = match args."@
                    + "get(idx) "@ + seq!['{'] + "\n        "@
            ) + (part + rest));
        words::lemma_piece_between(
            before + ", String> "@ + seq!['{'] + "\n    let payload = match args."@ + "get(idx) "@
                + seq!['{'] + "\n        "@,
            part,
            rest,
        );
    }
    assert(words::has_piece(
        text::fill(t::ARG_WIT_VALUE_DIRECT@, b),
        "ciborium::de::from_reader::<"@ + upstream_path + ", _>(payload.bytes.as_slice())"@,
    )) by {
        let before = text::lemma_fill_reaches(s, b, 306);
        reveal_strlit(";\n    // Task #523 short-circu");
        assert(s.subrange(306, 336) =~= ";\n    // Task #523 short-circu"@);
        text::lemma_fill_run(s, b, 306, ";\n    // Task #523 short-circu"@);
        reveal_strlit("it: LOCAL serde-ops type\n    /");
        assert(s.subrange(336, 366) =~= "it: LOCAL serde-ops type\n    /"@);
        text::lemma_fill_run(s, b, 336, "it: LOCAL serde-ops type\n    /"@);
        reveal_strlit("/ is byte-compatible with UPST");
        assert(s.subrange(366, 396) =~= "/ is byte-compatible with UPST"@);
        text::lemma_fill_run(s, b, 366, "/ is byte-compatible with UPST"@);
        reveal_strlit("REAM (verified at\n    // codeg");
        assert(s.subrange(396, 426) =~= "REAM (verified at\n    // codeg"@);
        text::lemma_fill_run(s, b, 396, "REAM (verified at\n    // codeg"@);
        reveal_strlit("en time via record_registry's ");
        assert(s.subrange(426, 456) =~= "en time via record_registry's "@);
        text::lemma_fill_run(s, b, 426, "en time via record_registry's "@);
        reveal_strlit("`direct`\n    // fix-point). De");
        assert(s.subrange(456, 486) =~= "`direct`\n    // fix-point). De"@);
        text::lemma_fill_run(s, b, 456, "`direct`\n    // fix-point). De"@);
        reveal_strlit("code straight into UPSTREAM.\n ");
        assert(s.subrange(486, 516) =~= "code straight into UPSTREAM.\n "@);
        text::lemma_fill_run(s, b, 486, "code straight into UPSTREAM.\n "@);
        reveal_strlit("   ");
        assert(s.subrange(516, 519) =~= "   "@);
        text::lemma_fill_run(s, b, 516, "   "@);
        reveal_strlit("ciborium::de::from_reader::<");
        assert(s.subrange(519, 547) =~= "ciborium::de::from_reader::<"@);
        text::lemma_fill_run(s, b, 519, "ciborium::de::from_reader::<"@);
        reveal_strlit("upstream_path");
        assert(s.subrange(548, 561) =~= "upstream_path"@);
        text::lemma_fill_hole(s, b, 547, "upstream_path"@);
        reveal_strlit(", _>(payload.bytes.as_slice())");
        assert(s.subrange(562, 592) =~= ", _>(payload.bytes.as_slice())"@);
        text::lemma_fill_run(s, b, 562, ", _>(payload.bytes.as_slice())"@);
        let rest = text::fill_from(s, b, 592);
        let part = "ciborium::de::from_reader::<"@ + upstream_path + ", _>(payload.bytes.as_slice())"@;
        assert((
            "ciborium::de::from_reader::<"@
                + (upstream_path + (", _>(payload.bytes.as_slice())"@ + rest))
        )
            =~= part + rest);
        assert(before
            + (
                ";\n    // Task #523 short-circu"@
                    + (
                        "it: LOCAL serde-ops type\n    /"@
                            + (
                                "/ is byte-compatible with UPST"@
                                    + (
                                        "REAM (verified at\n    // codeg"@
                                            + (
                                                "en time via record_registry's "@
                                                    + (
                                                        "`direct`\n    // fix-point). De"@
                                                            + (
                                                                "code straight into UPSTREAM.\n "@
                                                                    + ("   "@ + (part + rest))
                                                            )
                                                    )
                                            )
                                    )
                            )
                    )
            )
            =~= (
                before + ";\n    // Task #523 short-circu"@ + "it: LOCAL serde-ops type\n    /"@
                    + "/ is byte-compatible with UPST"@ + "REAM (verified at\n    // codeg"@
                    + "en time via record_registry's "@ + "`direct`\n    // fix-point). De"@
                    + "code straight into UPSTREAM.\n "@ + "   "@
            ) + (part + rest));
        words::lemma_piece_between(
            before + ";\n    // Task #523 short-circu"@ + "it: LOCAL serde-ops type\n    /"@
                + "/ is byte-compatible with UPST"@ + "REAM (verified at\n    // codeg"@
                + "en time via record_registry's "@ + "`direct`\n    // fix-point). De"@
                + "code straight into UPSTREAM.\n "@ + "   "@,
            part,
            rest,
        );
    }
}

#[verifier::rlimit(40)]
proof fn lemma_arg_wit_value(
    snake: Seq<char>,
    upstream_path: Seq<char>,
    local_path: Seq<char>,
    bridge_struct: Seq<char>,
    primary_snake: Seq<char>,
)
    ensures
        words::has_piece(
            text::fill(
                t::ARG_WIT_VALUE@,
                seq![("snake"@, snake), ("upstream_path"@, upstream_path), ("local_path"@, local_path), ("bridge_struct"@, bridge_struct), ("primary_snake"@, primary_snake)],
            ),
            "fn arg_witvalue_"@ + snake + "("@,
        ),
        words::has_piece(
            text::fill(
                t::ARG_WIT_VALUE@,
                seq![("snake"@, snake), ("upstream_path"@, upstream_path), ("local_path"@, local_path), ("bridge_struct"@, bridge_struct), ("primary_snake"@, primary_snake)],
            ),
            "-> Result<"@ + upstream_path + ", String> "@,
        ),
        words::has_piece(
            text::fill(
                t::ARG_WIT_VALUE@,
                seq![("snake"@, snake), ("upstream_path"@, upstream_path), ("local_path"@, local_path), ("bridge_struct"@, bridge_struct), ("primary_snake"@, primary_snake)],
            ),
            "Some(SqlValue::WitValue(p)) => p,"@,
        ),
        words::has_piece(
            text::fill(
                t::ARG_WIT_VALUE@,
                seq![("snake"@, snake), ("upstream_path"@, upstream_path), ("local_path"@, local_path), ("bridge_struct"@, bridge_struct), ("primary_snake"@, primary_snake)],
            ),
            "let __loc: "@ + local_path + " = <"@ + bridge_struct
                + " as bindings::exports::sqlink_bridge::"@ + primary_snake
                + "::serde_ops::Guest>::"@ + snake + "_from_canon_cbor("@,
        ),
        words::has_piece(
            text::fill(
                t::ARG_WIT_VALUE@,
                seq![("snake"@, snake), ("upstream_path"@, upstream_path), ("local_path"@, local_path), ("bridge_struct"@, bridge_struct), ("primary_snake"@, primary_snake)],
            ),
            "ciborium::de::from_reader::<"@ + upstream_path + ", _>(__buf.as_slice())"@,
        ),
{
    let s = t::ARG_WIT_VALUE@;
    reveal_strlit(r#"#[allow(dead_code)]
fn arg_witvalue_{snake}(
    args: &[SqlValue],
    idx: usize,
    name: &str,
) -> Result<{upstream_path}, String> {{
    let payload = match args.get(idx) {{
        Some(SqlValue::WitValue(p)) => p,
        _ => return Err(format!("{{name}}: arg {{idx}} must be WIT-VALUE")),
    }};
    // LOCAL serde-ops decode — proves the codec
    // fires (not the identity-passthrough fallback).
    let __loc: {local_path} = <{bridge_struct} as bindings::exports::sqlink_bridge::{primary_snake}::serde_ops::Guest>::{snake}_from_canon_cbor(
        payload.bytes.clone(),
    )
    .map_err(|e| format!("{{name}}: decode arg {{idx}}: {{}}", e))?;
    // LOCAL → UPSTREAM via ciborium round-trip.
    let mut __buf: Vec<u8> = Vec::new();
    ciborium::ser::into_writer(&__loc, &mut __buf)
        .map_err(|e| format!("{{name}}: re-encode arg {{idx}}: {{}}", e))?;
    ciborium::de::from_reader::<{upstream_path}, _>(__buf.as_slice())
        .map_err(|e| format!("{{name}}: convert arg {{idx}}: {{}}", e))
}}

"#);
    reveal_with_fuel(text::plain_to, 31);
    let b = seq![("snake"@, snake), ("upstream_path"@, upstream_path), ("local_path"@, local_path), ("bridge_struct"@, bridge_struct), ("primary_snake"@, primary_snake)];
    lemma_holes_snake_upstream_path_local_path_bridge_struct_primary_snake(
        snake,
        upstream_path,
        local_path,
        bridge_struct,
        primary_snake,
    );
    assert(words::has_piece(text::fill(t::ARG_WIT_VALUE@, b), "fn arg_witvalue_"@ + snake + "("@)) by {
        let before = text::lemma_fill_reaches(s, b, 0);
        reveal_strlit("#[allow(dead_code)]\n");
        assert(s.subrange(0, 20) =~= "#[allow(dead_code)]\n"@);
        text::lemma_fill_run(s, b, 0, "#[allow(dead_code)]\n"@);
        reveal_strlit("fn arg_witvalue_");
        assert(s.subrange(20, 36) =~= "fn arg_witvalue_"@);
        text::lemma_fill_run(s, b, 20, "fn arg_witvalue_"@);
        reveal_strlit("snake");
        assert(s.subrange(37, 42) =~= "snake"@);
        text::lemma_fill_hole(s, b, 36, "snake"@);
        reveal_strlit("(");
        assert(s.subrange(43, 44) =~= "("@);
        text::lemma_fill_run(s, b, 43, "("@);
        let rest = text::fill_from(s, b, 44);
        let part = "fn arg_witvalue_"@ + snake + "("@;
        assert(("fn arg_witvalue_"@ + (snake + ("("@ + rest))) =~= part + rest);
        assert(before + ("#[allow(dead_code)]\n"@ + (part + rest))
            =~= (before + "#[allow(dead_code)]\n"@) + (part + rest));
        words::lemma_piece_between(before + "#[allow(dead_code)]\n"@, part, rest);
    }
    assert(words::has_piece(
        text::fill(t::ARG_WIT_VALUE@, b),
        "-> Result<"@ + upstream_path + ", String> "@,
    )) by {
        let before = text::lemma_fill_reaches(s, b, 43);
        reveal_strlit("(\n    args: &[SqlValue],\n    i");
        assert(s.subrange(43, 73) =~= "(\n    args: &[SqlValue],\n    i"@);
        text::lemma_fill_run(s, b, 43, "(\n    args: &[SqlValue],\n    i"@);
        reveal_strlit("dx: usize,\n    name: &str,\n) ");
        assert(s.subrange(73, 102) =~= "dx: usize,\n    name: &str,\n) "@);
        text::lemma_fill_run(s, b, 73, "dx: usize,\n    name: &str,\n) "@);
        reveal_strlit("-> Result<");
        assert(s.subrange(102, 112) =~= "-> Result<"@);
        text::lemma_fill_run(s, b, 102, "-> Result<"@);
        reveal_strlit("upstream_path");
        assert(s.subrange(113, 126) =~= "upstream_path"@);
        text::lemma_fill_hole(s, b, 112, "upstream_path"@);
        reveal_strlit(", String> ");
        assert(s.subrange(127, 137) =~= ", String> "@);
        text::lemma_fill_run(s, b, 127, ", String> "@);
        let rest = text::fill_from(s, b, 137);
        let part = "-> Result<"@ + upstream_path + ", String> "@;
        assert(("-> Result<"@ + (upstream_path + (", String> "@ + rest))) =~= part + rest);
        assert(before
            + (
                "(\n    args: &[SqlValue],\n    i"@
                    + ("dx: usize,\n    name: &str,\n) "@ + (part + rest))
            )
            =~= (before + "(\n    args: &[SqlValue],\n    i"@ + "dx: usize,\n    name: &str,\n) "@)
                + (part + rest));
        words::lemma_piece_between(
            before + "(\n    args: &[SqlValue],\n    i"@ + "dx: usize,\n    name: &str,\n) "@,
            part,
            rest,
        );
    }
    assert(words::has_piece(text::fill(t::ARG_WIT_VALUE@, b), "Some(SqlValue::WitValue(p)) => p,"@)) by {
        let before = text::lemma_fill_reaches(s, b, 127);
        reveal_strlit(", String> ");
        assert(s.subrange(127, 137) =~= ", String> "@);
        text::lemma_fill_run(s, b, 127, ", String> "@);
        assert(text::fill_from(s, b, 137) == seq!['{'] + text::fill_from(s, b, 139));
        reveal_strlit("\n    let payload = match args.");
        assert(s.subrange(139, 169) =~= "\n    let payload = match args."@);
        text::lemma_fill_run(s, b, 139, "\n    let payload = match args."@);
        reveal_strlit("get(idx) ");
        assert(s.subrange(169, 178) =~= "get(idx) "@);
        text::lemma_fill_run(s, b, 169, "get(idx) "@);
        assert(text::fill_from(s, b, 178) == seq!['{'] + text::fill_from(s, b, 180));
        reveal_strlit("\n        ");
        assert(s.subrange(180, 189) =~= "\n        "@);
        text::lemma_fill_run(s, b, 180, "\n        "@);
        reveal_strlit("Some(SqlValue::WitValue(p)) =>");
        assert(s.subrange(189, 219) =~= "Some(SqlValue::WitValue(p)) =>"@);
        text::lemma_fill_run(s, b, 189, "Some(SqlValue::WitValue(p)) =>"@);
        reveal_strlit(" p,");
        assert(s.subrange(219, 222) =~= " p,"@);
        text::lemma_fill_run(s, b, 219, " p,"@);
        let rest = text::fill_from(s, b, 222);
        let part = "Some(SqlValue::WitValue(p)) => p,"@;
        reveal_strlit("Some(SqlValue::WitValue(p)) => p,");
        assert(("Some(SqlValue::WitValue(p)) =>"@ + (" p,"@ + rest)) =~= part + rest);
        assert(before
            + (
                ", String> "@
                    + (
                        seq!['{']
                            + (
                                "\n    let payload = match args."@
                                    + ("get(idx) "@ + (seq!['{'] + ("\n        "@ + (part + rest))))
                            )
                    )
            )
            =~= (
                before + ", String> "@ + seq!['{'] + "\n    let payload = match args."@
                    + "get(idx) "@ + seq!['{'] + "\n        "@
            ) + (part + rest));
        words::lemma_piece_between(
            before + ", String> "@ + seq!['{'] + "\n    let payload = match args."@ + "get(idx) "@
                + seq!['{'] + "\n        "@,
            part,
            rest,
        );
    }
    assert(words::has_piece(
        text::fill(t::ARG_WIT_VALUE@, b),
        "let __loc: "@ + local_path + " = <"@ + bridge_struct
            + " as bindings::exports::sqlink_bridge::"@ + primary_snake + "::serde_ops::Guest>::"@
            + snake + "_from_canon_cbor("@,
    )) by {
        let before = text::lemma_fill_reaches(s, b, 306);
        reveal_strlit(";\n    // LOCAL serde-ops decod");
        assert(s.subrange(306, 336) =~= ";\n    // LOCAL serde-ops decod"@);
        text::lemma_fill_run(s, b, 306, ";\n    // LOCAL serde-ops decod"@);
        reveal_strlit("e — proves the codec\n    // fi");
        assert(s.subrange(336, 366) =~= "e — proves the codec\n    // fi"@);
        text::lemma_fill_run(s, b, 336, "e — proves the codec\n    // fi"@);
        reveal_strlit("res (not the identity-passthro");
        assert(s.subrange(366, 396) =~= "res (not the identity-passthro"@);
        text::lemma_fill_run(s, b, 366, "res (not the identity-passthro"@);
        reveal_strlit("ugh fallback).\n    ");
        assert(s.subrange(396, 415) =~= "ugh fallback).\n    "@);
        text::lemma_fill_run(s, b, 396, "ugh fallback).\n    "@);
        reveal_strlit("let __loc: ");
        assert(s.subrange(415, 426) =~= "let __loc: "@);
        text::lemma_fill_run(s, b, 415, "let __loc: "@);
        reveal_strlit("local_path");
        assert(s.subrange(427, 437) =~= "local_path"@);
        text::lemma_fill_hole(s, b, 426, "local_path"@);
        reveal_strlit(" = <");
        assert(s.subrange(438, 442) =~= " = <"@);
        text::lemma_fill_run(s, b, 438, " = <"@);
        reveal_strlit("bridge_struct");
        assert(s.subrange(443, 456) =~= "bridge_struct"@);
        text::lemma_fill_hole(s, b, 442, "bridge_struct"@);
        reveal_strlit(" as bindings::exports::sqlink_");
        assert(s.subrange(457, 487) =~= " as bindings::exports::sqlink_"@);
        text::lemma_fill_run(s, b, 457, " as bindings::exports::sqlink_"@);
        reveal_strlit("bridge::");
        assert(s.subrange(487, 495) =~= "bridge::"@);
        text::lemma_fill_run(s, b, 487, "bridge::"@);
        reveal_strlit("primary_snake");
        assert(s.subrange(496, 509) =~= "primary_snake"@);
        text::lemma_fill_hole(s, b, 495, "primary_snake"@);
        reveal_strlit("::serde_ops::Guest>::");
        assert(s.subrange(510, 531) =~= "::serde_ops::Guest>::"@);
        text::lemma_fill_run(s, b, 510, "::serde_ops::Guest>::"@);
        reveal_strlit("snake");
        assert(s.subrange(532, 537) =~= "snake"@);
        text::lemma_fill_hole(s, b, 531, "snake"@);
        reveal_strlit("_from_canon_cbor(");
        assert(s.subrange(538, 555) =~= "_from_canon_cbor("@);
        text::lemma_fill_run(s, b, 538, "_from_canon_cbor("@);
        let rest = text::fill_from(s, b, 555);
        let part = "let __loc: "@ + local_path + " = <"@ + bridge_struct
            + " as bindings::exports::sqlink_bridge::"@ + primary_snake + "::serde_ops::Guest>::"@
            + snake + "_from_canon_cbor("@;
        reveal_strlit(" as bindings::exports::sqlink_bridge::");
        assert((
            "let __loc: "@
                + (
                    local_path
                        + (
                            " = <"@
                                + (
                                    bridge_struct
                                        + (
                                            " as bindings::exports::sqlink_"@
                                                + (
                                                    "bridge::"@
                                                        + (
                                                            primary_snake
                                                                + (
                                                                    "::serde_ops::Guest>::"@
                                                                        + (
                                                                            snake
                                                                                + (
                                                                                    "_from_canon_cbor("@
                                                                                        + rest
                                                                                )
                                                                        )
                                                                )
                                                        )
                                                )
                                        )
                                )
                        )
                )
        )
            =~= part + rest);
        assert(before
            + (
                ";\n    // LOCAL serde-ops decod"@
                    + (
                        "e — proves the codec\n    // fi"@
                            + (
                                "res (not the identity-passthro"@
                                    + ("ugh fallback).\n    "@ + (part + rest))
                            )
                    )
            )
            =~= (
                before + ";\n    // LOCAL serde-ops decod"@ + "e — proves the codec\n    // fi"@
                    + "res (not the identity-passthro"@ + "ugh fallback).\n    "@
            ) + (part + rest));
        words::lemma_piece_between(
            before + ";\n    // LOCAL serde-ops decod"@ + "e — proves the codec\n    // fi"@
                + "res (not the identity-passthro"@ + "ugh fallback).\n    "@,
            part,
            rest,
        );
    }
    assert(words::has_piece(
        text::fill(t::ARG_WIT_VALUE@, b),
        "ciborium::de::from_reader::<"@ + upstream_path + ", _>(__buf.as_slice())"@,
    )) by {
        let before = text::lemma_fill_reaches(s, b, 870);
        reveal_strlit("\", e))?;\n    ");
        assert(s.subrange(870, 883) =~= "\", e))?;\n    "@);
        text::lemma_fill_run(s, b, 870, "\", e))?;\n    "@);
        reveal_strlit("ciborium::de::from_reader::<");
        assert(s.subrange(883, 911) =~= "ciborium::de::from_reader::<"@);
        text::lemma_fill_run(s, b, 883, "ciborium::de::from_reader::<"@);
        reveal_strlit("upstream_path");
        assert(s.subrange(912, 925) =~= "upstream_path"@);
        text::lemma_fill_hole(s, b, 911, "upstream_path"@);
        reveal_strlit(", _>(__buf.as_slice())");
        assert(s.subrange(926, 948) =~= ", _>(__buf.as_slice())"@);
        text::lemma_fill_run(s, b, 926, ", _>(__buf.as_slice())"@);
        let rest = text::fill_from(s, b, 948);
        let part = "ciborium::de::from_reader::<"@ + upstream_path + ", _>(__buf.as_slice())"@;
        assert(("ciborium::de::from_reader::<"@ + (upstream_path + (", _>(__buf.as_slice())"@ + rest)))
            =~= part + rest);
        assert(before + ("\", e))?;\n    "@ + (part + rest))
            =~= (before + "\", e))?;\n    "@) + (part + rest));
        words::lemma_piece_between(before + "\", e))?;\n    "@, part, rest);
    }
}

proof fn lemma_parse_list_record(snake: Seq<char>, upstream_path: Seq<char>, kebab: Seq<char>)
    ensures
        words::has_piece(
            text::fill(
                t::PARSE_LIST_RECORD@,
                seq![("snake"@, snake), ("upstream_path"@, upstream_path), ("kebab"@, kebab)],
            ),
            "fn parse_json_list_record_"@ + snake + "("@,
        ),
        words::has_piece(
            text::fill(
                t::PARSE_LIST_RECORD@,
                seq![("snake"@, snake), ("upstream_path"@, upstream_path), ("kebab"@, kebab)],
            ),
            "-> Result<Vec<"@ + upstream_path + ">, String> "@,
        ),
        words::has_piece(
            text::fill(
                t::PARSE_LIST_RECORD@,
                seq![("snake"@, snake), ("upstream_path"@, upstream_path), ("kebab"@, kebab)],
            ),
            "serde_json::from_str::<Vec<"@ + upstream_path + ">>(text)"@,
        ),
{
    let s = t::PARSE_LIST_RECORD@;
    reveal_strlit(r#"#[allow(dead_code)]
fn parse_json_list_record_{snake}(
    args: &[SqlValue],
    idx: usize,
    name: &str,
) -> Result<Vec<{upstream_path}>, String> {{
    let text = arg_text(args, idx, name)?;
    serde_json::from_str::<Vec<{upstream_path}>>(text)
        .map_err(|e| format!("{{name}}: arg {{idx}} must be JSON array of {kebab} ({{e}})"))
}}

"#);
    reveal_with_fuel(text::plain_to, 31);
    let b = seq![("snake"@, snake), ("upstream_path"@, upstream_path), ("kebab"@, kebab)];
    lemma_holes_snake_upstream_path_kebab(snake, upstream_path, kebab);
    assert(words::has_piece(
        text::fill(t::PARSE_LIST_RECORD@, b),
        "fn parse_json_list_record_"@ + snake + "("@,
    )) by {
        let before = text::lemma_fill_reaches(s, b, 0);
        reveal_strlit("#[allow(dead_code)]\n");
        assert(s.subrange(0, 20) =~= "#[allow(dead_code)]\n"@);
        text::lemma_fill_run(s, b, 0, "#[allow(dead_code)]\n"@);
        reveal_strlit("fn parse_json_list_record_");
        assert(s.subrange(20, 46) =~= "fn parse_json_list_record_"@);
        text::lemma_fill_run(s, b, 20, "fn parse_json_list_record_"@);
        reveal_strlit("snake");
        assert(s.subrange(47, 52) =~= "snake"@);
        text::lemma_fill_hole(s, b, 46, "snake"@);
        reveal_strlit("(");
        assert(s.subrange(53, 54) =~= "("@);
        text::lemma_fill_run(s, b, 53, "("@);
        let rest = text::fill_from(s, b, 54);
        let part = "fn parse_json_list_record_"@ + snake + "("@;
        assert(("fn parse_json_list_record_"@ + (snake + ("("@ + rest))) =~= part + rest);
        assert(before + ("#[allow(dead_code)]\n"@ + (part + rest))
            =~= (before + "#[allow(dead_code)]\n"@) + (part + rest));
        words::lemma_piece_between(before + "#[allow(dead_code)]\n"@, part, rest);
    }
    assert(words::has_piece(
        text::fill(t::PARSE_LIST_RECORD@, b),
        "-> Result<Vec<"@ + upstream_path + ">, String> "@,
    )) by {
        let before = text::lemma_fill_reaches(s, b, 53);
        reveal_strlit("(\n    args: &[SqlValue],\n    i");
        assert(s.subrange(53, 83) =~= "(\n    args: &[SqlValue],\n    i"@);
        text::lemma_fill_run(s, b, 53, "(\n    args: &[SqlValue],\n    i"@);
        reveal_strlit("dx: usize,\n    name: &str,\n) ");
        assert(s.subrange(83, 112) =~= "dx: usize,\n    name: &str,\n) "@);
        text::lemma_fill_run(s, b, 83, "dx: usize,\n    name: &str,\n) "@);
        reveal_strlit("-> Result<Vec<");
        assert(s.subrange(112, 126) =~= "-> Result<Vec<"@);
        text::lemma_fill_run(s, b, 112, "-> Result<Vec<"@);
        reveal_strlit("upstream_path");
        assert(s.subrange(127, 140) =~= "upstream_path"@);
        text::lemma_fill_hole(s, b, 126, "upstream_path"@);
        reveal_strlit(">, String> ");
        assert(s.subrange(141, 152) =~= ">, String> "@);
        text::lemma_fill_run(s, b, 141, ">, String> "@);
        let rest = text::fill_from(s, b, 152);
        let part = "-> Result<Vec<"@ + upstream_path + ">, String> "@;
        assert(("-> Result<Vec<"@ + (upstream_path + (">, String> "@ + rest))) =~= part + rest);
        assert(before
            + (
                "(\n    args: &[SqlValue],\n    i"@
                    + ("dx: usize,\n    name: &str,\n) "@ + (part + rest))
            )
            =~= (before + "(\n    args: &[SqlValue],\n    i"@ + "dx: usize,\n    name: &str,\n) "@)
                + (part + rest));
        words::lemma_piece_between(
            before + "(\n    args: &[SqlValue],\n    i"@ + "dx: usize,\n    name: &str,\n) "@,
            part,
            rest,
        );
    }
    assert(words::has_piece(
        text::fill(t::PARSE_LIST_RECORD@, b),
        "serde_json::from_str::<Vec<"@ + upstream_path + ">>(text)"@,
    )) by {
        let before = text::lemma_fill_reaches(s, b, 141);
        reveal_strlit(">, String> ");
        assert(s.subrange(141, 152) =~= ">, String> "@);
        text::lemma_fill_run(s, b, 141, ">, String> "@);
        assert(text::fill_from(s, b, 152) == seq!['{'] + text::fill_from(s, b, 154));
        reveal_strlit("\n    let text = arg_text(args,");
        assert(s.subrange(154, 184) =~= "\n    let text = arg_text(args,"@);
        text::lemma_fill_run(s, b, 154, "\n    let text = arg_text(args,"@);
        reveal_strlit(" idx, name)?;\n    ");
        assert(s.subrange(184, 202) =~= " idx, name)?;\n    "@);
        text::lemma_fill_run(s, b, 184, " idx, name)?;\n    "@);
        reveal_strlit("serde_json::from_str::<Vec<");
        assert(s.subrange(202, 229) =~= "serde_json::from_str::<Vec<"@);
        text::lemma_fill_run(s, b, 202, "serde_json::from_str::<Vec<"@);
        reveal_strlit("upstream_path");
        assert(s.subrange(230, 243) =~= "upstream_path"@);
        text::lemma_fill_hole(s, b, 229, "upstream_path"@);
        reveal_strlit(">>(text)");
        assert(s.subrange(244, 252) =~= ">>(text)"@);
        text::lemma_fill_run(s, b, 244, ">>(text)"@);
        let rest = text::fill_from(s, b, 252);
        let part = "serde_json::from_str::<Vec<"@ + upstream_path + ">>(text)"@;
        assert(("serde_json::from_str::<Vec<"@ + (upstream_path + (">>(text)"@ + rest))) =~= part + rest);
        assert(before
            + (
                ">, String> "@
                    + (
                        seq!['{']
                            + (
                                "\n    let text = arg_text(args,"@
                                    + (" idx, name)?;\n    "@ + (part + rest))
                            )
                    )
            )
            =~= (
                before + ">, String> "@ + seq!['{'] + "\n    let text = arg_text(args,"@
                    + " idx, name)?;\n    "@
            ) + (part + rest));
        words::lemma_piece_between(
            before + ">, String> "@ + seq!['{'] + "\n    let text = arg_text(args,"@
                + " idx, name)?;\n    "@,
            part,
            rest,
        );
    }
}

proof fn lemma_ret_wit_value(
    snake: Seq<char>,
    upstream_path: Seq<char>,
    tid: Seq<char>,
    symbolic: Seq<char>,
)
    ensures
        words::has_piece(
            text::fill(
                t::RET_WIT_VALUE@,
                seq![("snake"@, snake), ("upstream_path"@, upstream_path), ("tid"@, tid), ("symbolic"@, symbolic)],
            ),
            "fn ret_to_witvalue_"@ + snake + "("@,
        ),
        words::has_piece(
            text::fill(
                t::RET_WIT_VALUE@,
                seq![("snake"@, snake), ("upstream_path"@, upstream_path), ("tid"@, tid), ("symbolic"@, symbolic)],
            ),
            "upstream: "@ + upstream_path + ","@,
        ),
        words::has_piece(
            text::fill(
                t::RET_WIT_VALUE@,
                seq![("snake"@, snake), ("upstream_path"@, upstream_path), ("tid"@, tid), ("symbolic"@, symbolic)],
            ),
            "type_id: alloc::vec!["@ + tid + "],"@,
        ),
        words::has_piece(
            text::fill(
                t::RET_WIT_VALUE@,
                seq![("snake"@, snake), ("upstream_path"@, upstream_path), ("tid"@, tid), ("symbolic"@, symbolic)],
            ),
            "symbolic_name: \""@ + symbolic + "\".into(),"@,
        ),
{
    let s = t::RET_WIT_VALUE@;
    reveal_strlit(r#"#[allow(dead_code)]
fn ret_to_witvalue_{snake}(
    upstream: {upstream_path},
) -> Result<SqlValue, String> {{
    let mut __buf: Vec<u8> = Vec::new();
    ciborium::ser::into_writer(&upstream, &mut __buf)
        .map_err(|e| format!("encode {snake} wit-value: {{}}", e))?;
    Ok(SqlValue::WitValue(WitValuePayload {{
        type_id: alloc::vec![{tid}],
        bytes: __buf,
        symbolic_name: "{symbolic}".into(),
    }}))
}}

"#);
    reveal_with_fuel(text::plain_to, 31);
    let b = seq![("snake"@, snake), ("upstream_path"@, upstream_path), ("tid"@, tid), ("symbolic"@, symbolic)];
    lemma_holes_snake_upstream_path_tid_symbolic(snake, upstream_path, tid, symbolic);
    assert(words::has_piece(text::fill(t::RET_WIT_VALUE@, b), "fn ret_to_witvalue_"@ + snake + "("@)) by {
        let before = text::lemma_fill_reaches(s, b, 0);
        reveal_strlit("#[allow(dead_code)]\n");
        assert(s.subrange(0, 20) =~= "#[allow(dead_code)]\n"@);
        text::lemma_fill_run(s, b, 0, "#[allow(dead_code)]\n"@);
        reveal_strlit("fn ret_to_witvalue_");
        assert(s.subrange(20, 39) =~= "fn ret_to_witvalue_"@);
        text::lemma_fill_run(s, b, 20, "fn ret_to_witvalue_"@);
        reveal_strlit("snake");
        assert(s.subrange(40, 45) =~= "snake"@);
        text::lemma_fill_hole(s, b, 39, "snake"@);
        reveal_strlit("(");
        assert(s.subrange(46, 47) =~= "("@);
        text::lemma_fill_run(s, b, 46, "("@);
        let rest = text::fill_from(s, b, 47);
        let part = "fn ret_to_witvalue_"@ + snake + "("@;
        assert(("fn ret_to_witvalue_"@ + (snake + ("("@ + rest))) =~= part + rest);
        assert(before + ("#[allow(dead_code)]\n"@ + (part + rest))
            =~= (before + "#[allow(dead_code)]\n"@) + (part + rest));
        words::lemma_piece_between(before + "#[allow(dead_code)]\n"@, part, rest);
    }
    assert(words::has_piece(text::fill(t::RET_WIT_VALUE@, b), "upstream: "@ + upstream_path + ","@)) by {
        let before = text::lemma_fill_reaches(s, b, 46);
        reveal_strlit("(\n    ");
        assert(s.subrange(46, 52) =~= "(\n    "@);
        text::lemma_fill_run(s, b, 46, "(\n    "@);
        reveal_strlit("upstream: ");
        assert(s.subrange(52, 62) =~= "upstream: "@);
        text::lemma_fill_run(s, b, 52, "upstream: "@);
        reveal_strlit("upstream_path");
        assert(s.subrange(63, 76) =~= "upstream_path"@);
        text::lemma_fill_hole(s, b, 62, "upstream_path"@);
        reveal_strlit(",");
        assert(s.subrange(77, 78) =~= ","@);
        text::lemma_fill_run(s, b, 77, ","@);
        let rest = text::fill_from(s, b, 78);
        let part = "upstream: "@ + upstream_path + ","@;
        assert(("upstream: "@ + (upstream_path + (","@ + rest))) =~= part + rest);
        assert(before + ("(\n    "@ + (part + rest)) =~= (before + "(\n    "@) + (part + rest));
        words::lemma_piece_between(before + "(\n    "@, part, rest);
    }
    assert(words::has_piece(text::fill(t::RET_WIT_VALUE@, b), "type_id: alloc::vec!["@ + tid + "],"@)) by {
        let before = text::lemma_fill_reaches(s, b, 267);
        reveal_strlit("\", e))?;\n    Ok(SqlValue::WitV");
        assert(s.subrange(267, 297) =~= "\", e))?;\n    Ok(SqlValue::WitV"@);
        text::lemma_fill_run(s, b, 267, "\", e))?;\n    Ok(SqlValue::WitV"@);
        reveal_strlit("alue(WitValuePayload ");
        assert(s.subrange(297, 318) =~= "alue(WitValuePayload "@);
        text::lemma_fill_run(s, b, 297, "alue(WitValuePayload "@);
        assert(text::fill_from(s, b, 318) == seq!['{'] + text::fill_from(s, b, 320));
        reveal_strlit("\n        ");
        assert(s.subrange(320, 329) =~= "\n        "@);
        text::lemma_fill_run(s, b, 320, "\n        "@);
        reveal_strlit("type_id: alloc::vec![");
        assert(s.subrange(329, 350) =~= "type_id: alloc::vec!["@);
        text::lemma_fill_run(s, b, 329, "type_id: alloc::vec!["@);
        reveal_strlit("tid");
        assert(s.subrange(351, 354) =~= "tid"@);
        text::lemma_fill_hole(s, b, 350, "tid"@);
        reveal_strlit("],");
        assert(s.subrange(355, 357) =~= "],"@);
        text::lemma_fill_run(s, b, 355, "],"@);
        let rest = text::fill_from(s, b, 357);
        let part = "type_id: alloc::vec!["@ + tid + "],"@;
        assert(("type_id: alloc::vec!["@ + (tid + ("],"@ + rest))) =~= part + rest);
        assert(before
            + (
                "\", e))?;\n    Ok(SqlValue::WitV"@
                    + ("alue(WitValuePayload "@ + (seq!['{'] + ("\n        "@ + (part + rest))))
            )
            =~= (
                before + "\", e))?;\n    Ok(SqlValue::WitV"@ + "alue(WitValuePayload "@ + seq!['{']
                    + "\n        "@
            ) + (part + rest));
        words::lemma_piece_between(
            before + "\", e))?;\n    Ok(SqlValue::WitV"@ + "alue(WitValuePayload "@ + seq!['{']
                + "\n        "@,
            part,
            rest,
        );
    }
    assert(words::has_piece(
        text::fill(t::RET_WIT_VALUE@, b),
        "symbolic_name: \""@ + symbolic + "\".into(),"@,
    )) by {
        let before = text::lemma_fill_reaches(s, b, 355);
        reveal_strlit("],\n        bytes: __buf,\n     ");
        assert(s.subrange(355, 385) =~= "],\n        bytes: __buf,\n     "@);
        text::lemma_fill_run(s, b, 355, "],\n        bytes: __buf,\n     "@);
        reveal_strlit("   ");
        assert(s.subrange(385, 388) =~= "   "@);
        text::lemma_fill_run(s, b, 385, "   "@);
        reveal_strlit("symbolic_name: \"");
        assert(s.subrange(388, 404) =~= "symbolic_name: \""@);
        text::lemma_fill_run(s, b, 388, "symbolic_name: \""@);
        reveal_strlit("symbolic");
        assert(s.subrange(405, 413) =~= "symbolic"@);
        text::lemma_fill_hole(s, b, 404, "symbolic"@);
        reveal_strlit("\".into(),");
        assert(s.subrange(414, 423) =~= "\".into(),"@);
        text::lemma_fill_run(s, b, 414, "\".into(),"@);
        let rest = text::fill_from(s, b, 423);
        let part = "symbolic_name: \""@ + symbolic + "\".into(),"@;
        assert(("symbolic_name: \""@ + (symbolic + ("\".into(),"@ + rest))) =~= part + rest);
        assert(before + ("],\n        bytes: __buf,\n     "@ + ("   "@ + (part + rest)))
            =~= (before + "],\n        bytes: __buf,\n     "@ + "   "@) + (part + rest));
        words::lemma_piece_between(
            before + "],\n        bytes: __buf,\n     "@ + "   "@,
            part,
            rest,
        );
    }
}

proof fn lemma_wit_record_open(name: Seq<char>)
    ensures
        text::fill(emit_wit::RECORD_OPEN@, seq![("name"@, name)])
            == "    record "@ + name + " {\n"@,
{
    let s = emit_wit::RECORD_OPEN@;
    let b = seq![("name"@, name)];
    reveal_strlit("    record {name} {{\n");
    reveal_with_fuel(text::plain_to, 31);
    lemma_holes_name(name);
    reveal_strlit("    record ");
    assert(s.subrange(0, 11) =~= "    record "@);
    text::lemma_fill_run(s, b, 0, "    record "@);
    reveal_strlit("name");
    assert(s.subrange(12, 16) =~= "name"@);
    text::lemma_fill_hole(s, b, 11, "name"@);
    reveal_strlit(" ");
    assert(s.subrange(17, 18) =~= " "@);
    text::lemma_fill_run(s, b, 17, " "@);
    assert(text::fill_from(s, b, 18) == seq!['{'] + text::fill_from(s, b, 20));
    reveal_strlit("\n");
    assert(s.subrange(20, 21) =~= "\n"@);
    text::lemma_fill_run(s, b, 20, "\n"@);
    reveal_strlit(" {\n");
    assert(("    record "@ + (name + (" "@ + (seq!['{'] + ("\n"@ + text::fill_from(s, b, 21))))))
        =~= "    record "@ + name + " {\n"@);
}

proof fn lemma_wit_field(fname: Seq<char>, resolved: Seq<char>)
    ensures
        text::fill(emit_wit::FIELD@, seq![("fname"@, fname), ("resolved"@, resolved)])
            == "        "@ + fname + ": "@ + resolved + ",\n"@,
{
    let s = emit_wit::FIELD@;
    let b = seq![("fname"@, fname), ("resolved"@, resolved)];
    reveal_strlit("        {fname}: {resolved},\n");
    reveal_with_fuel(text::plain_to, 31);
    lemma_holes_fname_resolved(fname, resolved);
    reveal_strlit("        ");
    assert(s.subrange(0, 8) =~= "        "@);
    text::lemma_fill_run(s, b, 0, "        "@);
    reveal_strlit("fname");
    assert(s.subrange(9, 14) =~= "fname"@);
    text::lemma_fill_hole(s, b, 8, "fname"@);
    reveal_strlit(": ");
    assert(s.subrange(15, 17) =~= ": "@);
    text::lemma_fill_run(s, b, 15, ": "@);
    reveal_strlit("resolved");
    assert(s.subrange(18, 26) =~= "resolved"@);
    text::lemma_fill_hole(s, b, 17, "resolved"@);
    reveal_strlit(",\n");
    assert(s.subrange(27, 29) =~= ",\n"@);
    text::lemma_fill_run(s, b, 27, ",\n"@);
    assert(("        "@ + (fname + (": "@ + (resolved + (",\n"@ + text::fill_from(s, b, 29))))))
        =~= "        "@ + fname + ": "@ + resolved + ",\n"@);
}

proof fn lemma_wit_from_cbor(name: Seq<char>)
    ensures
        text::fill(emit_wit::FROM_CBOR@, seq![("name"@, name)])
            == "    "@ + name + "-from-canon-cbor: func(bytes: list<u8>) -> result<"@ + name
                + ", string>;\n"@,
{
    let s = emit_wit::FROM_CBOR@;
    let b = seq![("name"@, name)];
    reveal_strlit("    {name}-from-canon-cbor: func(bytes: list<u8>) -> result<{name}, string>;\n");
    reveal_with_fuel(text::plain_to, 31);
    lemma_holes_name(name);
    reveal_strlit("    ");
    assert(s.subrange(0, 4) =~= "    "@);
    text::lemma_fill_run(s, b, 0, "    "@);
    reveal_strlit("name");
    assert(s.subrange(5, 9) =~= "name"@);
    text::lemma_fill_hole(s, b, 4, "name"@);
    reveal_strlit("-from-canon-cbor: func(bytes: ");
    assert(s.subrange(10, 40) =~= "-from-canon-cbor: func(bytes: "@);
    text::lemma_fill_run(s, b, 10, "-from-canon-cbor: func(bytes: "@);
    reveal_strlit("list<u8>) -> result<");
    assert(s.subrange(40, 60) =~= "list<u8>) -> result<"@);
    text::lemma_fill_run(s, b, 40, "list<u8>) -> result<"@);
    assert(s.subrange(61, 65) =~= "name"@);
    text::lemma_fill_hole(s, b, 60, "name"@);
    reveal_strlit(", string>;\n");
    assert(s.subrange(66, 77) =~= ", string>;\n"@);
    text::lemma_fill_run(s, b, 66, ", string>;\n"@);
    reveal_strlit("-from-canon-cbor: func(bytes: list<u8>) -> result<");
    assert((
        "    "@
            + (
                name
                    + (
                        "-from-canon-cbor: func(bytes: "@
                            + (
                                "list<u8>) -> result<"@
                                    + (name + (", string>;\n"@ + text::fill_from(s, b, 77)))
                            )
                    )
            )
    )
        =~= "    "@ + name + "-from-canon-cbor: func(bytes: list<u8>) -> result<"@ + name
            + ", string>;\n"@);
}

proof fn lemma_wit_to_cbor(name: Seq<char>)
    ensures
        text::fill(emit_wit::TO_CBOR@, seq![("name"@, name)])
            == "    "@ + name + "-to-canon-cbor: func(value: "@ + name + ") -> list<u8>;\n"@,
{
    let s = emit_wit::TO_CBOR@;
    let b = seq![("name"@, name)];
    reveal_strlit("    {name}-to-canon-cbor: func(value: {name}) -> list<u8>;\n");
    reveal_with_fuel(text::plain_to, 31);
    lemma_holes_name(name);
    reveal_strlit("    ");
    assert(s.subrange(0, 4) =~= "    "@);
    text::lemma_fill_run(s, b, 0, "    "@);
    reveal_strlit("name");
    assert(s.subrange(5, 9) =~= "name"@);
    text::lemma_fill_hole(s, b, 4, "name"@);
    reveal_strlit("-to-canon-cbor: func(value: ");
    assert(s.subrange(10, 38) =~= "-to-canon-cbor: func(value: "@);
    text::lemma_fill_run(s, b, 10, "-to-canon-cbor: func(value: "@);
    assert(s.subrange(39, 43) =~= "name"@);
    text::lemma_fill_hole(s, b, 38, "name"@);
    reveal_strlit(") -> list<u8>;\n");
    assert(s.subrange(44, 59) =~= ") -> list<u8>;\n"@);
    text::lemma_fill_run(s, b, 44, ") -> list<u8>;\n"@);
    assert((
        "    "@
            + (
                name
                    + (
                        "-to-canon-cbor: func(value: "@
                            + (name + (") -> list<u8>;\n"@ + text::fill_from(s, b, 59)))
                    )
            )
    )
        =~= "    "@ + name + "-to-canon-cbor: func(value: "@ + name + ") -> list<u8>;\n"@);
}

proof fn lemma_wit_enum_open(name: Seq<char>)
    ensures
        text::fill(emit_wit::ENUM_OPEN@, seq![("name"@, name)]) == "    enum "@ + name + " {\n"@,
{
    let s = emit_wit::ENUM_OPEN@;
    let b = seq![("name"@, name)];
    reveal_strlit("    enum {name} {{\n");
    reveal_with_fuel(text::plain_to, 31);
    lemma_holes_name(name);
    reveal_strlit("    enum ");
    assert(s.subrange(0, 9) =~= "    enum "@);
    text::lemma_fill_run(s, b, 0, "    enum "@);
    reveal_strlit("name");
    assert(s.subrange(10, 14) =~= "name"@);
    text::lemma_fill_hole(s, b, 9, "name"@);
    reveal_strlit(" ");
    assert(s.subrange(15, 16) =~= " "@);
    text::lemma_fill_run(s, b, 15, " "@);
    assert(text::fill_from(s, b, 16) == seq!['{'] + text::fill_from(s, b, 18));
    reveal_strlit("\n");
    assert(s.subrange(18, 19) =~= "\n"@);
    text::lemma_fill_run(s, b, 18, "\n"@);
    reveal_strlit(" {\n");
    assert(("    enum "@ + (name + (" "@ + (seq!['{'] + ("\n"@ + text::fill_from(s, b, 19))))))
        =~= "    enum "@ + name + " {\n"@);
}

proof fn lemma_wit_enum_case(c: Seq<char>, comma: Seq<char>)
    ensures
        text::fill(emit_wit::ENUM_CASE@, seq![("c"@, c), ("comma"@, comma)])
            == "        "@ + c + comma + "\n"@,
{
    let s = emit_wit::ENUM_CASE@;
    let b = seq![("c"@, c), ("comma"@, comma)];
    reveal_strlit("        {c}{comma}\n");
    reveal_with_fuel(text::plain_to, 31);
    lemma_holes_c_comma(c, comma);
    reveal_strlit("        ");
    assert(s.subrange(0, 8) =~= "        "@);
    text::lemma_fill_run(s, b, 0, "        "@);
    reveal_strlit("c");
    assert(s.subrange(9, 10) =~= "c"@);
    text::lemma_fill_hole(s, b, 8, "c"@);
    reveal_strlit("comma");
    assert(s.subrange(12, 17) =~= "comma"@);
    text::lemma_fill_hole(s, b, 11, "comma"@);
    reveal_strlit("\n");
    assert(s.subrange(18, 19) =~= "\n"@);
    text::lemma_fill_run(s, b, 18, "\n"@);
    assert(("        "@ + (c + (comma + ("\n"@ + text::fill_from(s, b, 19)))))
        =~= "        "@ + c + comma + "\n"@);
}

proof fn lemma_use_module(
    pkg_ns: Seq<char>,
    pkg_name: Seq<char>,
    module_ident: Seq<char>,
    alias: Seq<char>,
)
    ensures
        text::fill(
            gather::USE_MODULE@,
            seq![("pkg_ns"@, pkg_ns), ("pkg_name"@, pkg_name), ("module_ident"@, module_ident), ("alias"@, alias)],
        )
            == "use bindings::"@ + pkg_ns + "::"@ + pkg_name + "::"@ + module_ident + " as "@ + alias
                + ";\n"@,
{
    let s = gather::USE_MODULE@;
    let b = seq![("pkg_ns"@, pkg_ns), ("pkg_name"@, pkg_name), ("module_ident"@, module_ident), ("alias"@, alias)];
    reveal_strlit("use bindings::{pkg_ns}::{pkg_name}::{module_ident} as {alias};\n");
    reveal_with_fuel(text::plain_to, 31);
    lemma_holes_pkg_ns_pkg_name_module_ident_alias(pkg_ns, pkg_name, module_ident, alias);
    reveal_strlit("use bindings::");
    assert(s.subrange(0, 14) =~= "use bindings::"@);
    text::lemma_fill_run(s, b, 0, "use bindings::"@);
    reveal_strlit("pkg_ns");
    assert(s.subrange(15, 21) =~= "pkg_ns"@);
    text::lemma_fill_hole(s, b, 14, "pkg_ns"@);
    reveal_strlit("::");
    assert(s.subrange(22, 24) =~= "::"@);
    text::lemma_fill_run(s, b, 22, "::"@);
    reveal_strlit("pkg_name");
    assert(s.subrange(25, 33) =~= "pkg_name"@);
    text::lemma_fill_hole(s, b, 24, "pkg_name"@);
    assert(s.subrange(34, 36) =~= "::"@);
    text::lemma_fill_run(s, b, 34, "::"@);
    reveal_strlit("module_ident");
    assert(s.subrange(37, 49) =~= "module_ident"@);
    text::lemma_fill_hole(s, b, 36, "module_ident"@);
    reveal_strlit(" as ");
    assert(s.subrange(50, 54) =~= " as "@);
    text::lemma_fill_run(s, b, 50, " as "@);
    reveal_strlit("alias");
    assert(s.subrange(55, 60) =~= "alias"@);
    text::lemma_fill_hole(s, b, 54, "alias"@);
    reveal_strlit(";\n");
    assert(s.subrange(61, 63) =~= ";\n"@);
    text::lemma_fill_run(s, b, 61, ";\n"@);
    assert((
        "use bindings::"@
            + (
                pkg_ns
                    + (
                        "::"@
                            + (
                                pkg_name
                                    + (
                                        "::"@
                                            + (
                                                module_ident
                                                    + (
                                                        " as "@
                                                            + (
                                                                alias
                                                                    + (
                                                                        ";\n"@
                                                                            + text::fill_from(
                                                                                s,
                                                                                b,
                                                                                63,
                                                                            )
                                                                    )
                                                            )
                                                    )
                                            )
                                    )
                            )
                    )
            )
    )
        =~= "use bindings::"@ + pkg_ns + "::"@ + pkg_name + "::"@ + module_ident + " as "@ + alias
            + ";\n"@);
}

proof fn lemma_upstream_path(ns: Seq<char>, name: Seq<char>, iface: Seq<char>, pascal: Seq<char>)
    ensures
        text::fill(
            gather::UPSTREAM_PATH@,
            seq![("ns"@, ns), ("name"@, name), ("iface"@, iface), ("pascal"@, pascal)],
        )
            == "bindings::"@ + ns + "::"@ + name + "::"@ + iface + "::"@ + pascal,
{
    let s = gather::UPSTREAM_PATH@;
    let b = seq![("ns"@, ns), ("name"@, name), ("iface"@, iface), ("pascal"@, pascal)];
    reveal_strlit("bindings::{ns}::{name}::{iface}::{pascal}");
    reveal_with_fuel(text::plain_to, 31);
    lemma_holes_ns_name_iface_pascal(ns, name, iface, pascal);
    reveal_strlit("bindings::");
    assert(s.subrange(0, 10) =~= "bindings::"@);
    text::lemma_fill_run(s, b, 0, "bindings::"@);
    reveal_strlit("ns");
    assert(s.subrange(11, 13) =~= "ns"@);
    text::lemma_fill_hole(s, b, 10, "ns"@);
    reveal_strlit("::");
    assert(s.subrange(14, 16) =~= "::"@);
    text::lemma_fill_run(s, b, 14, "::"@);
    reveal_strlit("name");
    assert(s.subrange(17, 21) =~= "name"@);
    text::lemma_fill_hole(s, b, 16, "name"@);
    assert(s.subrange(22, 24) =~= "::"@);
    text::lemma_fill_run(s, b, 22, "::"@);
    reveal_strlit("iface");
    assert(s.subrange(25, 30) =~= "iface"@);
    text::lemma_fill_hole(s, b, 24, "iface"@);
    assert(s.subrange(31, 33) =~= "::"@);
    text::lemma_fill_run(s, b, 31, "::"@);
    reveal_strlit("pascal");
    assert(s.subrange(34, 40) =~= "pascal"@);
    text::lemma_fill_hole(s, b, 33, "pascal"@);
    assert((
        "bindings::"@
            + (
                ns
                    + (
                        "::"@
                            + (
                                name
                                    + (
                                        "::"@
                                            + (
                                                iface
                                                    + ("::"@ + (pascal + text::fill_from(s, b, 41)))
                                            )
                                    )
                            )
                    )
            )
    )
        =~= "bindings::"@ + ns + "::"@ + name + "::"@ + iface + "::"@ + pascal);
}

proof fn lemma_tuple_helper(suffix: Seq<char>, rust_tuple: Seq<char>, wit_label: Seq<char>)
    ensures
        words::has_piece(
            text::fill(
                t::TUPLE_HELPER@,
                seq![("suffix"@, suffix), ("rust_tuple"@, rust_tuple), ("wit_label"@, wit_label)],
            ),
            "fn parse_json_list_tuple_"@ + suffix
                + "(args: &[SqlValue], idx: usize, name: &str) -> Result<Vec<"@ + rust_tuple
                + ">, String> "@,
        ),
        words::has_piece(
            text::fill(
                t::TUPLE_HELPER@,
                seq![("suffix"@, suffix), ("rust_tuple"@, rust_tuple), ("wit_label"@, wit_label)],
            ),
            "serde_json::from_str::<Vec<"@ + rust_tuple + ">>(text)"@,
        ),
        words::has_piece(
            text::fill(
                t::TUPLE_HELPER@,
                seq![("suffix"@, suffix), ("rust_tuple"@, rust_tuple), ("wit_label"@, wit_label)],
            ),
            "must be JSON array of ["@ + wit_label + "] tuples"@,
        ),
{
    let s = t::TUPLE_HELPER@;
    reveal_strlit(r#"#[allow(dead_code)]
fn parse_json_list_tuple_{suffix}(args: &[SqlValue], idx: usize, name: &str) -> Result<Vec<{rust_tuple}>, String> {{
    let text = arg_text(args, idx, name)?;
    serde_json::from_str::<Vec<{rust_tuple}>>(text)
        .map_err(|e| format!("{{name}}: arg {{idx}} must be JSON array of [{wit_label}] tuples ({{e}})"))
}}

"#);
    reveal_with_fuel(text::plain_to, 31);
    let b = seq![("suffix"@, suffix), ("rust_tuple"@, rust_tuple), ("wit_label"@, wit_label)];
    lemma_holes_suffix_rust_tuple_wit_label(suffix, rust_tuple, wit_label);
    assert(words::has_piece(
        text::fill(t::TUPLE_HELPER@, b),
        "fn parse_json_list_tuple_"@ + suffix
            + "(args: &[SqlValue], idx: usize, name: &str) -> Result<Vec<"@ + rust_tuple
            + ">, String> "@,
    )) by {
        let before = text::lemma_fill_reaches(s, b, 0);
        reveal_strlit("#[allow(dead_code)]\n");
        assert(s.subrange(0, 20) =~= "#[allow(dead_code)]\n"@);
        text::lemma_fill_run(s, b, 0, "#[allow(dead_code)]\n"@);
        reveal_strlit("fn parse_json_list_tuple_");
        assert(s.subrange(20, 45) =~= "fn parse_json_list_tuple_"@);
        text::lemma_fill_run(s, b, 20, "fn parse_json_list_tuple_"@);
        reveal_strlit("suffix");
        assert(s.subrange(46, 52) =~= "suffix"@);
        text::lemma_fill_hole(s, b, 45, "suffix"@);
        reveal_strlit("(args: &[SqlValue], idx: usize");
        assert(s.subrange(53, 83) =~= "(args: &[SqlValue], idx: usize"@);
        text::lemma_fill_run(s, b, 53, "(args: &[SqlValue], idx: usize"@);
        reveal_strlit(", name: &str) -> Result<Vec<");
        assert(s.subrange(83, 111) =~= ", name: &str) -> Result<Vec<"@);
        text::lemma_fill_run(s, b, 83, ", name: &str) -> Result<Vec<"@);
        reveal_strlit("rust_tuple");
        assert(s.subrange(112, 122) =~= "rust_tuple"@);
        text::lemma_fill_hole(s, b, 111, "rust_tuple"@);
        reveal_strlit(">, String> ");
        assert(s.subrange(123, 134) =~= ">, String> "@);
        text::lemma_fill_run(s, b, 123, ">, String> "@);
        let rest = text::fill_from(s, b, 134);
        let part = "fn parse_json_list_tuple_"@ + suffix
            + "(args: &[SqlValue], idx: usize, name: &str) -> Result<Vec<"@ + rust_tuple
            + ">, String> "@;
        reveal_strlit("(args: &[SqlValue], idx: usize, name: &str) -> Result<Vec<");
        assert((
            "fn parse_json_list_tuple_"@
                + (
                    suffix
                        + (
                            "(args: &[SqlValue], idx: usize"@
                                + (
                                    ", name: &str) -> Result<Vec<"@
                                        + (rust_tuple + (">, String> "@ + rest))
                                )
                        )
                )
        )
            =~= part + rest);
        assert(before + ("#[allow(dead_code)]\n"@ + (part + rest))
            =~= (before + "#[allow(dead_code)]\n"@) + (part + rest));
        words::lemma_piece_between(before + "#[allow(dead_code)]\n"@, part, rest);
    }
    assert(words::has_piece(
        text::fill(t::TUPLE_HELPER@, b),
        "serde_json::from_str::<Vec<"@ + rust_tuple + ">>(text)"@,
    )) by {
        let before = text::lemma_fill_reaches(s, b, 123);
        reveal_strlit(">, String> ");
        assert(s.subrange(123, 134) =~= ">, String> "@);
        text::lemma_fill_run(s, b, 123, ">, String> "@);
        assert(text::fill_from(s, b, 134) == seq!['{'] + text::fill_from(s, b, 136));
        reveal_strlit("\n    let text = arg_text(args,");
        assert(s.subrange(136, 166) =~= "\n    let text = arg_text(args,"@);
        text::lemma_fill_run(s, b, 136, "\n    let text = arg_text(args,"@);
        reveal_strlit(" idx, name)?;\n    ");
        assert(s.subrange(166, 184) =~= " idx, name)?;\n    "@);
        text::lemma_fill_run(s, b, 166, " idx, name)?;\n    "@);
        reveal_strlit("serde_json::from_str::<Vec<");
        assert(s.subrange(184, 211) =~= "serde_json::from_str::<Vec<"@);
        text::lemma_fill_run(s, b, 184, "serde_json::from_str::<Vec<"@);
        reveal_strlit("rust_tuple");
        assert(s.subrange(212, 222) =~= "rust_tuple"@);
        text::lemma_fill_hole(s, b, 211, "rust_tuple"@);
        reveal_strlit(">>(text)");
        assert(s.subrange(223, 231) =~= ">>(text)"@);
        text::lemma_fill_run(s, b, 223, ">>(text)"@);
        let rest = text::fill_from(s, b, 231);
        let part = "serde_json::from_str::<Vec<"@ + rust_tuple + ">>(text)"@;
        assert(("serde_json::from_str::<Vec<"@ + (rust_tuple + (">>(text)"@ + rest))) =~= part + rest);
        assert(before
            + (
                ">, String> "@
                    + (
                        seq!['{']
                            + (
                                "\n    let text = arg_text(args,"@
                                    + (" idx, name)?;\n    "@ + (part + rest))
                            )
                    )
            )
            =~= (
                before + ">, String> "@ + seq!['{'] + "\n    let text = arg_text(args,"@
                    + " idx, name)?;\n    "@
            ) + (part + rest));
        words::lemma_piece_between(
            before + ">, String> "@ + seq!['{'] + "\n    let text = arg_text(args,"@
                + " idx, name)?;\n    "@,
            part,
            rest,
        );
    }
    assert(words::has_piece(
        text::fill(t::TUPLE_HELPER@, b),
        "must be JSON array of ["@ + wit_label + "] tuples"@,
    )) by {
        let before = text::lemma_fill_reaches(s, b, 283);
        reveal_strlit(" ");
        assert(s.subrange(283, 284) =~= " "@);
        text::lemma_fill_run(s, b, 283, " "@);
        reveal_strlit("must be JSON array of [");
        assert(s.subrange(284, 307) =~= "must be JSON array of ["@);
        text::lemma_fill_run(s, b, 284, "must be JSON array of ["@);
        reveal_strlit("wit_label");
        assert(s.subrange(308, 317) =~= "wit_label"@);
        text::lemma_fill_hole(s, b, 307, "wit_label"@);
        reveal_strlit("] tuples");
        assert(s.subrange(318, 326) =~= "] tuples"@);
        text::lemma_fill_run(s, b, 318, "] tuples"@);
        let rest = text::fill_from(s, b, 326);
        let part = "must be JSON array of ["@ + wit_label + "] tuples"@;
        assert(("must be JSON array of ["@ + (wit_label + ("] tuples"@ + rest))) =~= part + rest);
        assert(before + (" "@ + (part + rest)) =~= (before + " "@) + (part + rest));
        words::lemma_piece_between(before + " "@, part, rest);
    }
}

} // verus!
