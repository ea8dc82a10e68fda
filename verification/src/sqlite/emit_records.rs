//! How records cross: their entries in the manifest, the functions that encode and decode them,
//! and the helpers that dispatch arms read and write them with.

use vstd::prelude::*;
use vstd::string::*;

use crate::gather;
use crate::ir::RecordType;
use crate::sqlite::lib_templates as t;
use crate::text::{self, cat, fill1, fill2, fill3, fill4, fill5};
use crate::words::{self, escape_quotes, join, pascal_case, to_snake};

verus! {

// ─── Type ids ───

/// A hexadecimal digit.
pub open spec fn hex_digit(d: nat) -> char {
    if d < 10 {
        ('0' as nat + d) as char
    } else {
        ('a' as nat + d - 10) as char
    }
}

/// A byte as a hexadecimal literal of two digits.
pub open spec fn hex_byte(b: u8) -> Seq<char> {
    "0x"@.push(hex_digit((b / 16) as nat)).push(hex_digit((b % 16) as nat))
}

fn render_hex_digit(d: u8) -> (r: char)
    requires
        d < 16,
    ensures
        r == hex_digit(d as nat),
{
    if d < 10 {
        (48 + d) as char
    } else {
        (87 + d) as char
    }
}

fn render_hex_byte(b: u8) -> (r: String)
    ensures
        r@ == hex_byte(b),
{
    let mut r = "0x".to_owned();
    r.push(render_hex_digit(b / 16));
    r.push(render_hex_digit(b % 16));
    r
}

/// The bytes of a type id as hexadecimal literals.
pub open spec fn type_id_bytes(id: Seq<u8>) -> Seq<Seq<char>> {
    id.map_values(|b: u8| hex_byte(b))
}

/// A type id as the elements of a vector.
pub open spec fn type_id_text(id: Seq<u8>) -> Seq<char> {
    words::joined(type_id_bytes(id), ", "@)
}

fn render_type_id(id: &[u8; 32]) -> (r: String)
    ensures
        r@ == type_id_text(id@),
{
    let mut list: Vec<String> = Vec::new();
    let mut k: usize = 0;
    while k < 32
        invariant
            k <= 32,
            list@.len() == k,
            forall|j: int| 0 <= j < k ==> #[trigger] list@[j]@ == hex_byte(id@[j]),
        decreases 32 - k,
    {
        list.push(render_hex_byte(id[k]));
        k = k + 1;
    }
    assert(text::strs(list@) =~= type_id_bytes(id@));
    join(&list, ", ")
}

/// Bytes with one hexadecimal literal are one byte.
pub proof fn law_hex_injective(a: u8, b: u8)
    requires
        hex_byte(a) == hex_byte(b),
    ensures
        a == b,
{
    let p = "0x"@.len() as int;
    assert(hex_byte(a)[p] == hex_digit((a / 16) as nat));
    assert(hex_byte(b)[p] == hex_digit((b / 16) as nat));
    assert(hex_byte(a)[p + 1] == hex_digit((a % 16) as nat));
    assert(hex_byte(b)[p + 1] == hex_digit((b % 16) as nat));
    lemma_hex_digit_injective((a / 16) as nat, (b / 16) as nat);
    lemma_hex_digit_injective((a % 16) as nat, (b % 16) as nat);
}

proof fn lemma_hex_digit_injective(x: nat, y: nat)
    requires
        x < 16,
        y < 16,
        hex_digit(x) == hex_digit(y),
    ensures
        x == y,
{
    assert(hex_digit(x) as nat == if x < 10 {
        48 + x
    } else {
        87 + x
    });
    assert(hex_digit(y) as nat == if y < 10 {
        48 + y
    } else {
        87 + y
    });
}

// ─── The manifest ───

/// A record in the manifest.
pub open spec fn typed_value_entry(r: RecordType) -> Seq<char> {
    text::fill(
        t::TYPED_VALUE_ENTRY@,
        seq![
            ("type_id"@, type_id_text(r.type_id@)),
            ("symbolic"@, words::escaped(r.symbolic_name@)),
            ("decoder"@, words::escaped(r.decoder_import@)),
            ("encoder"@, words::escaped(r.encoder_import@)),
        ],
    )
}

/// The first `n` records in the manifest.
pub open spec fn typed_value_entries(records: Seq<RecordType>, n: nat) -> Seq<char>
    decreases n,
{
    if n == 0 {
        Seq::empty()
    } else {
        typed_value_entries(records, (n - 1) as nat) + typed_value_entry(records[n - 1])
    }
}

/// Puts a record's entry in the manifest behind `out`.
pub fn push_typed_value_entry(out: &mut String, r: &RecordType)
    ensures
        final(out)@ == old(out)@ + typed_value_entry(*r),
{
    let type_id = render_type_id(&r.type_id);
    let symbolic = escape_quotes(r.symbolic_name.as_str());
    let decoder = escape_quotes(r.decoder_import.as_str());
    let encoder = escape_quotes(r.encoder_import.as_str());
    let entry = fill4(
        t::TYPED_VALUE_ENTRY,
        "type_id",
        type_id.as_str(),
        "symbolic",
        symbolic.as_str(),
        "decoder",
        decoder.as_str(),
        "encoder",
        encoder.as_str(),
    );
    out.append(entry.as_str());
}

/// Writes the records of the manifest.
pub fn render_typed_value_entries(records: &Vec<RecordType>) -> (r: String)
    ensures
        r@ == typed_value_entries(records@, records@.len()),
{
    let mut r = String::new();
    let mut k: usize = 0;
    while k < records.len()
        invariant
            k <= records@.len(),
            r@ == typed_value_entries(records@, k as nat),
        decreases records.len() - k,
    {
        push_typed_value_entry(&mut r, &records[k]);
        k = k + 1;
    }
    r
}

// ─── Encoding and decoding ───

/// The names of the records' types.
pub open spec fn type_names(records: Seq<RecordType>) -> Seq<Seq<char>> {
    records.map_values(|r: RecordType| words::pascal(r.kebab_name@, true))
}

/// The functions that decode and encode a record.
pub open spec fn codec(primary: Seq<char>, r: RecordType) -> Seq<char> {
    let holes = seq![
        ("snake"@, r.snake_name@),
        ("pascal"@, words::pascal(r.kebab_name@, true)),
        ("primary"@, primary),
        ("kebab"@, r.kebab_name@),
    ];
    text::fill(t::FROM_CANON_CBOR@, holes) + text::fill(t::TO_CANON_CBOR@, holes)
}

/// The functions that decode and encode the first `n` records.
pub open spec fn codecs(primary: Seq<char>, records: Seq<RecordType>, n: nat) -> Seq<char>
    decreases n,
{
    if n == 0 {
        Seq::empty()
    } else {
        codecs(primary, records, (n - 1) as nat) + codec(primary, records[n - 1])
    }
}

/// The implementation of the interface that encodes and decodes records.
pub open spec fn serde_ops_impl(
    primary: Seq<char>,
    bridge_struct: Seq<char>,
    records: Seq<RecordType>,
) -> Seq<char> {
    let primary_snake = words::snake(primary);
    t::SERDE_OPS_HEADER@ + text::fill(t::SERDE_OPS_GUEST@, seq![("primary_snake"@, primary_snake)])
        + (if records.len() > 0 {
        text::fill(
            t::SERDE_OPS_TYPES@,
            seq![
                ("primary_snake"@, primary_snake),
                ("names"@, words::joined(type_names(records), ", "@)),
            ],
        )
    } else {
        Seq::empty()
    }) + text::fill(t::SERDE_OPS_IMPL@, seq![("bridge_struct"@, bridge_struct)]) + codecs(
        primary,
        records,
        records.len(),
    ) + "}\n\n"@
}

fn list_type_names(records: &Vec<RecordType>) -> (r: Vec<String>)
    ensures
        text::strs(r@) == type_names(records@),
{
    let mut r: Vec<String> = Vec::new();
    let mut k: usize = 0;
    while k < records.len()
        invariant
            k <= records@.len(),
            r@.len() == k,
            forall|j: int| 0 <= j < k ==> #[trigger] r@[j]@ == type_names(records@)[j],
        decreases records.len() - k,
    {
        r.push(pascal_case(records[k].kebab_name.as_str()));
        k = k + 1;
    }
    assert(text::strs(r@) =~= type_names(records@));
    r
}

fn render_codec(primary: &str, r: &RecordType) -> (s: String)
    ensures
        s@ == codec(primary@, *r),
{
    let pascal = pascal_case(r.kebab_name.as_str());
    let kebab = r.kebab_name.as_str();
    let snake = r.snake_name.as_str();
    let from = fill4(
        t::FROM_CANON_CBOR,
        "snake",
        snake,
        "pascal",
        pascal.as_str(),
        "primary",
        primary,
        "kebab",
        kebab,
    );
    let to = fill4(
        t::TO_CANON_CBOR,
        "snake",
        snake,
        "pascal",
        pascal.as_str(),
        "primary",
        primary,
        "kebab",
        kebab,
    );
    cat(from.as_str(), to.as_str())
}

/// Writes the implementation of the interface that encodes and decodes records.
pub fn emit_serde_ops_impl(primary: &str, bridge_struct: &str, records: &Vec<RecordType>) -> (r:
    String)
    ensures
        r@ == serde_ops_impl(primary@, bridge_struct@, records@),
{
    let primary_snake = to_snake(primary);
    let mut bodies = String::new();
    let mut k: usize = 0;
    while k < records.len()
        invariant
            k <= records@.len(),
            bodies@ == codecs(primary@, records@, k as nat),
        decreases records.len() - k,
    {
        let one = render_codec(primary, &records[k]);
        bodies.append(one.as_str());
        k = k + 1;
    }
    let mut s = t::SERDE_OPS_HEADER.to_owned();
    let guest = fill1(t::SERDE_OPS_GUEST, "primary_snake", primary_snake.as_str());
    s.append(guest.as_str());
    let types = if records.len() > 0 {
        let names = list_type_names(records);
        let joined = join(&names, ", ");
        fill2(
            t::SERDE_OPS_TYPES,
            "primary_snake",
            primary_snake.as_str(),
            "names",
            joined.as_str(),
        )
    } else {
        String::new()
    };
    s.append(types.as_str());
    let open = fill1(t::SERDE_OPS_IMPL, "bridge_struct", bridge_struct);
    s.append(open.as_str());
    s.append(bodies.as_str());
    s.append("}\n\n");
    s
}

// ─── Helpers of dispatch arms ───

/// The path of the type of a record's copy in the bridge.
pub open spec fn local_path(primary: Seq<char>, kebab_name: Seq<char>) -> Seq<char> {
    text::fill(
        t::LOCAL_PATH@,
        seq![
            ("primary_snake"@, words::snake(primary)),
            ("pascal"@, words::pascal(kebab_name, true)),
        ],
    )
}

/// The helper that reads a record: straight into the shim's type where the copy is laid out the
/// same, and through the copy where it is not.
pub open spec fn arg_helper(primary: Seq<char>, bridge_struct: Seq<char>, r: RecordType) -> Seq<
    char,
> {
    let path = gather::upstream_path(
        r.package@,
        r.interface@,
        r.kebab_name@,
    );
    if r.direct {
        text::fill(
            t::ARG_WIT_VALUE_DIRECT@,
            seq![("snake"@, r.snake_name@), ("upstream_path"@, path)],
        )
    } else {
        text::fill(
            t::ARG_WIT_VALUE@,
            seq![
                ("snake"@, r.snake_name@),
                ("upstream_path"@, path),
                ("local_path"@, local_path(primary, r.kebab_name@)),
                ("bridge_struct"@, bridge_struct),
                ("primary_snake"@, words::snake(primary)),
            ],
        )
    }
}

/// The helpers that read a record, read a list of them, and write one.
pub open spec fn record_helpers(primary: Seq<char>, bridge_struct: Seq<char>, r: RecordType) -> Seq<
    char,
> {
    let path = gather::upstream_path(
        r.package@,
        r.interface@,
        r.kebab_name@,
    );
    arg_helper(primary, bridge_struct, r) + text::fill(
        t::PARSE_LIST_RECORD@,
        seq![
            ("snake"@, r.snake_name@),
            ("upstream_path"@, path),
            ("kebab"@, r.kebab_name@),
        ],
    ) + text::fill(
        t::RET_WIT_VALUE@,
        seq![
            ("snake"@, r.snake_name@),
            ("upstream_path"@, path),
            ("tid"@, type_id_text(r.type_id@)),
            ("symbolic"@, words::escaped(r.symbolic_name@)),
        ],
    )
}

/// The helpers of those of the first `n` records that arms refer to.
pub open spec fn helpers_prefix(
    primary: Seq<char>,
    bridge_struct: Seq<char>,
    records: Seq<RecordType>,
    referenced: Seq<Seq<char>>,
    n: nat,
) -> Seq<char>
    decreases n,
{
    if n == 0 {
        Seq::empty()
    } else {
        helpers_prefix(primary, bridge_struct, records, referenced, (n - 1) as nat)
            + if referenced.contains(records[n - 1].kebab_name@) {
            record_helpers(primary, bridge_struct, records[n - 1])
        } else {
            Seq::empty()
        }
    }
}

/// Whether arms refer to one of the first `n` records.
pub open spec fn any_referenced(
    records: Seq<RecordType>,
    referenced: Seq<Seq<char>>,
    n: nat,
) -> bool {
    exists|k: int| 0 <= k < n && referenced.contains((#[trigger] records[k]).kebab_name@)
}

/// The helpers of the records that arms refer to: nothing where they refer to none.
pub open spec fn wit_value_helpers(
    primary: Seq<char>,
    bridge_struct: Seq<char>,
    records: Seq<RecordType>,
    referenced: Seq<Seq<char>>,
) -> Seq<char> {
    if any_referenced(records, referenced, records.len()) {
        t::WIT_VALUE_HEADER@ + helpers_prefix(
            primary,
            bridge_struct,
            records,
            referenced,
            records.len(),
        )
    } else {
        Seq::empty()
    }
}

fn render_record_helpers(primary: &str, bridge_struct: &str, r: &RecordType) -> (s: String)
    ensures
        s@ == record_helpers(primary@, bridge_struct@, *r),
{
    let snake = r.snake_name.as_str();
    let kebab = r.kebab_name.as_str();
    let path = gather::render_upstream_path(
        r.package.as_str(),
        r.interface.as_str(),
        kebab,
    );
    let mut s = if r.direct {
        fill2(t::ARG_WIT_VALUE_DIRECT, "snake", snake, "upstream_path", path.as_str())
    } else {
        let primary_snake = to_snake(primary);
        let pascal = pascal_case(kebab);
        let local = fill2(
            t::LOCAL_PATH,
            "primary_snake",
            primary_snake.as_str(),
            "pascal",
            pascal.as_str(),
        );
        fill5(
            t::ARG_WIT_VALUE,
            "snake",
            snake,
            "upstream_path",
            path.as_str(),
            "local_path",
            local.as_str(),
            "bridge_struct",
            bridge_struct,
            "primary_snake",
            primary_snake.as_str(),
        )
    };
    let list = fill3(
        t::PARSE_LIST_RECORD,
        "snake",
        snake,
        "upstream_path",
        path.as_str(),
        "kebab",
        kebab,
    );
    s.append(list.as_str());
    let tid = render_type_id(&r.type_id);
    let symbolic = escape_quotes(r.symbolic_name.as_str());
    let ret = fill4(
        t::RET_WIT_VALUE,
        "snake",
        snake,
        "upstream_path",
        path.as_str(),
        "tid",
        tid.as_str(),
        "symbolic",
        symbolic.as_str(),
    );
    s.append(ret.as_str());
    s
}

/// Writes the helpers of the records that arms refer to.
pub fn emit_wit_value_helpers(
    primary: &str,
    bridge_struct: &str,
    records: &Vec<RecordType>,
    referenced: &Vec<String>,
) -> (r: String)
    ensures
        r@ == wit_value_helpers(primary@, bridge_struct@, records@, text::strs(referenced@)),
{
    let ghost refs = text::strs(referenced@);
    let mut any = false;
    let mut bodies = String::new();
    let mut k: usize = 0;
    while k < records.len()
        invariant
            k <= records@.len(),
            refs == text::strs(referenced@),
            any == any_referenced(records@, refs, k as nat),
            bodies@ == helpers_prefix(primary@, bridge_struct@, records@, refs, k as nat),
        decreases records.len() - k,
    {
        if words::has(referenced, records[k].kebab_name.as_str()) {
            let one = render_record_helpers(primary, bridge_struct, &records[k]);
            bodies.append(one.as_str());
            any = true;
            assert(refs.contains(records@[k as int].kebab_name@));
        } else {
            assert(bodies@ + Seq::<char>::empty() =~= bodies@);
        }
        k = k + 1;
    }
    if any {
        cat(t::WIT_VALUE_HEADER, bodies.as_str())
    } else {
        String::new()
    }
}

} // verus!
