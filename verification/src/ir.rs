//! What a bridge is emitted from: the functions of a plan, the shapes of their parameters
//! and results, and the records and packages that they refer to.

use vstd::prelude::*;

use crate::text;

verus! {

// ─── Plan ───

/// A scalar function of an extension.
pub struct ScalarFn {
    pub canonical_name: String,
    pub aliases: Vec<String>,
    /// One list of type names for each overload.
    pub param_signatures: Vec<Vec<String>>,
    pub is_deterministic: bool,
}

/// An aggregate function of an extension.
pub struct AggregateFn {
    pub canonical_name: String,
    pub aliases: Vec<String>,
    pub param_signatures: Vec<Vec<String>>,
}

/// A table function of an extension.
pub struct TableFn {
    pub canonical_name: String,
    pub aliases: Vec<String>,
}

/// A window function of an extension.
pub struct WindowFn {
    pub canonical_name: String,
    pub aliases: Vec<String>,
    pub param_signatures: Vec<Vec<String>>,
}

/// A cast that runs a scalar function.
pub struct CastRewrite {
    pub target_type: String,
    pub source_kind: String,
    pub function_name: String,
}

/// An extension with its functions.
pub struct Extension {
    pub name: String,
    pub version: String,
    pub scalars: Vec<ScalarFn>,
    pub aggregates: Vec<AggregateFn>,
    pub table_functions: Vec<TableFn>,
    pub window_functions: Vec<WindowFn>,
    pub cast_rewrites: Vec<CastRewrite>,
}

/// The extensions that one bridge serves; the first is the primary one.
pub struct BridgePlan {
    pub extensions: Vec<Extension>,
}

/// The name of the primary extension, or `shim` where there is none.
pub open spec fn primary_name(plan: BridgePlan) -> Seq<char> {
    if plan.extensions@.len() > 0 {
        plan.extensions@[0].name@
    } else {
        "shim"@
    }
}

/// The version of the primary extension, or `0.1.0` where there is none.
pub open spec fn primary_version(plan: BridgePlan) -> Seq<char> {
    if plan.extensions@.len() > 0 {
        plan.extensions@[0].version@
    } else {
        "0.1.0"@
    }
}

/// The name of the primary extension, or `shim` where there is none.
pub fn primary_extension_name(plan: &BridgePlan) -> (r: &str)
    ensures
        r@ == primary_name(*plan),
{
    if plan.extensions.len() > 0 {
        plan.extensions[0].name.as_str()
    } else {
        "shim"
    }
}

/// The version of the primary extension, or `0.1.0` where there is none.
pub fn primary_extension_version(plan: &BridgePlan) -> (r: &str)
    ensures
        r@ == primary_version(*plan),
{
    if plan.extensions.len() > 0 {
        plan.extensions[0].version.as_str()
    } else {
        "0.1.0"
    }
}

// ─── Shapes ───

/// An element of a list of primitives.
#[derive(Clone, Copy, PartialEq, Eq, Structural)]
pub enum ListPrimElem {
    F64,
    F32,
    S32,
    S64,
    U32,
    U64,
    U8,
    Bool,
    String,
}

impl ListPrimElem {
    /// The Rust type of the element.
    pub open spec fn rust_type(self) -> Seq<char> {
        match self {
            ListPrimElem::F64 => "f64"@,
            ListPrimElem::F32 => "f32"@,
            ListPrimElem::S32 => "i32"@,
            ListPrimElem::S64 => "i64"@,
            ListPrimElem::U32 => "u32"@,
            ListPrimElem::U64 => "u64"@,
            ListPrimElem::U8 => "u8"@,
            ListPrimElem::Bool => "bool"@,
            ListPrimElem::String => "String"@,
        }
    }

    /// The Rust type of the element.
    pub fn rust_elem(&self) -> (r: &'static str)
        ensures
            r@ == self.rust_type(),
    {
        match self {
            ListPrimElem::F64 => "f64",
            ListPrimElem::F32 => "f32",
            ListPrimElem::S32 => "i32",
            ListPrimElem::S64 => "i64",
            ListPrimElem::U32 => "u32",
            ListPrimElem::U64 => "u64",
            ListPrimElem::U8 => "u8",
            ListPrimElem::Bool => "bool",
            ListPrimElem::String => "String",
        }
    }

    /// How the names of helper functions end that read such elements.
    pub open spec fn suffix(self) -> Seq<char> {
        match self {
            ListPrimElem::String => "string"@,
            _ => self.rust_type(),
        }
    }

    /// How the names of helper functions end that read such elements.
    pub fn helper_suffix(&self) -> (r: &'static str)
        ensures
            r@ == self.suffix(),
    {
        match self {
            ListPrimElem::String => "string",
            _ => self.rust_elem(),
        }
    }

    /// The WIT type of the element.
    pub open spec fn wit_type(self) -> Seq<char> {
        match self {
            ListPrimElem::S32 => "s32"@,
            ListPrimElem::S64 => "s64"@,
            ListPrimElem::String => "string"@,
            _ => self.rust_type(),
        }
    }

    /// The WIT type of the element.
    pub fn wit_label(&self) -> (r: &'static str)
        ensures
            r@ == self.wit_type(),
    {
        match self {
            ListPrimElem::S32 => "s32",
            ListPrimElem::S64 => "s64",
            ListPrimElem::String => "string",
            _ => self.rust_elem(),
        }
    }
}

/// A record that stands in a tuple.
pub struct TupleRecord {
    pub wit_package: String,
    pub wit_interface: String,
    pub kebab_name: String,
}

/// An element of a tuple that may hold records.
pub enum ListTupleElem {
    Prim(ListPrimElem),
    Record(TupleRecord),
}

/// How a parameter crosses from SQL to the function that is called.
#[allow(inconsistent_fields)]
pub enum ParamShape {
    Text,
    F64,
    S32,
    S64,
    U32,
    U64,
    Bool,
    Blob,
    Geom,
    Geog,
    Raster,
    Topology,
    OptionNone,
    ListGeom,
    Enum { wit_module: String, wit_package: String, kebab_name: String, cases: Vec<String> },
    ListRecord { kebab_name: String },
    ListPrim(ListPrimElem),
    ListTuple { elements: Vec<ListPrimElem> },
    ListTupleMixed { elements: Vec<ListTupleElem> },
    ListListU8,
    ListListPrim(ListPrimElem),
    ListListRecord { kebab_name: String },
    WitValueRecord { kebab_name: String, upstream_by_value: bool },
}

/// A result that is handed to SQL as JSON text.
pub enum JsonRetKind {
    ListListPrim,
    ListTuplePrim,
    TuplePrim,
    OptionTuplePrim,
    OptionListPrimRecord,
    ListTupleGeomF64,
}

/// How a result crosses back to SQL.
pub enum RetShape {
    Text,
    Real,
    Int,
    BoolInt,
    Blob,
    GeomBlob,
    RasterBlob,
    TopologyBlob,
    TopoGeometryViaGeom,
    OptionText,
    OptionReal,
    OptionInt,
    OptionBoolInt,
    OptionBlob,
    OptionGeomBlob,
    OptionRasterBlob,
    OptionTopologyBlob,
    FirstGeomBlob,
    FirstRasterBlob,
    FirstTopologyBlob,
    FirstOptionU32Int,
    FirstInt,
    FirstReal,
    FirstText,
    BboxBlob,
    IsValidDetailText,
    Bbox3dWkbLineZ,
    Enum { wit_module: String, wit_package: String, kebab_name: String, cases: Vec<String> },
    OptionEnum { wit_module: String, wit_package: String, kebab_name: String, cases: Vec<String> },
    JsonText { kind: JsonRetKind },
    TuplePick { index: usize, elem: ListPrimElem },
    WitValueRecord { kebab_name: String },
    OptionWitValueRecord { kebab_name: String },
    FirstWitValueRecord { kebab_name: String },
    ListBool,
    ListListU8,
    Unit,
}

/// A call on a WIT resource.
pub struct MethodCall {
    pub is_constructor: bool,
    pub resource_kebab: String,
}

/// How a scalar function is called.
pub struct DispatchShape {
    pub params: Vec<ParamShape>,
    pub ret: RetShape,
    pub wit_module: String,
    pub wit_func: String,
    pub wit_package: String,
    pub method_call: Option<MethodCall>,
}

/// A scalar function that SQL can call.
pub struct DispatchEntry {
    pub sql_name: String,
    pub shape: DispatchShape,
}

/// A record by its name.
pub struct RecordRef {
    pub kebab_name: String,
}

/// A primitive that an aggregate returns.
#[derive(Clone, Copy, PartialEq, Eq, Structural)]
pub enum ScalarReturnKind {
    F64,
    F32,
    Bool,
    U32,
    S32,
    U64,
    S64,
    U8,
}

/// What an aggregate accumulates, and what it makes of it.
#[allow(inconsistent_fields)]
pub enum AccKind {
    Geom,
    Raster,
    Record { input: RecordRef, output: RecordRef },
    RecordToScalar { input: RecordRef, output: ScalarReturnKind, optional: bool },
    RecordToTuple { input: RecordRef, optional: bool },
    RecordToListPrim { input: RecordRef },
    RecordSetToRecordSet { input: RecordRef, output: RecordRef },
}

/// How an aggregate is called.
pub struct AggregateShape {
    pub wit_module: String,
    pub wit_func: String,
    pub wit_package: String,
    pub accumulator_kind: AccKind,
    pub extra_args: Vec<ParamShape>,
    pub ret: RetShape,
}

/// An aggregate that SQL can call.
pub struct AggregateEntry {
    pub sql_name: String,
    pub aliases: Vec<String>,
    pub shape: AggregateShape,
}

/// The affinity of a column.
#[derive(Clone, Copy, PartialEq, Eq, Structural)]
pub enum ColumnAffinity {
    Integer,
    Real,
    Text,
    Blob,
}

impl ColumnAffinity {
    /// The type of a column of this affinity.
    pub open spec fn sql_type(self) -> Seq<char> {
        match self {
            ColumnAffinity::Integer => "INTEGER"@,
            ColumnAffinity::Real => "REAL"@,
            ColumnAffinity::Text => "TEXT"@,
            ColumnAffinity::Blob => "BLOB"@,
        }
    }

    /// The type of a column of this affinity.
    pub fn as_str(&self) -> (r: &'static str)
        ensures
            r@ == self.sql_type(),
    {
        match self {
            ColumnAffinity::Integer => "INTEGER",
            ColumnAffinity::Real => "REAL",
            ColumnAffinity::Text => "TEXT",
            ColumnAffinity::Blob => "BLOB",
        }
    }
}

/// How a field of a row crosses to SQL.
#[derive(Clone, Copy, PartialEq, Eq, Structural)]
pub enum UdtfFieldShape {
    Int,
    Real,
    Text,
    Blob,
    GeomBlob,
    OptionInt,
    OptionReal,
    OptionText,
    OptionBlob,
    OptionGeomBlob,
    Unsupported,
}

/// A field of a row.
pub struct UdtfField {
    pub name: String,
    pub affinity: ColumnAffinity,
    pub field_shape: UdtfFieldShape,
}

/// The rows that a table function yields.
pub enum UdtfOutputRow {
    /// One geometry, in a column of this name.
    SingleGeom { column_name: String },
    SinglePrimitive { affinity: ColumnAffinity },
    Record { fields: Vec<UdtfField> },
    Unwired { reason: String },
}

/// How a table function is called.
pub struct UdtfShape {
    pub params: Vec<ParamShape>,
    pub param_names: Vec<String>,
    pub wit_module: String,
    pub wit_func: String,
    pub wit_package: String,
    pub fallible: bool,
    pub output_row: UdtfOutputRow,
}

/// A table function that SQL can call.
pub struct UdtfEntry {
    pub sql_name: String,
    pub shape: UdtfShape,
}

/// What a window function yields for a row.
#[derive(Clone, Copy, PartialEq, Eq, Structural)]
pub enum WindowReturn {
    OptionU32,
    U32,
    GeomBlob,
}

/// How a window function is called.
pub struct WindowShape {
    pub wit_module: String,
    pub wit_func: String,
    pub wit_package: String,
    pub extra_args: Vec<ParamShape>,
    pub fallible: bool,
    pub returns: WindowReturn,
}

/// A window function that SQL can call.
pub struct WindowEntry {
    pub sql_name: String,
    pub shape: WindowShape,
}

/// A function that got no arm, and why.
pub struct UnwiredScalar {
    pub sql_name: String,
    pub reason: String,
}

// ─── Records and packages ───

/// A record of a shim.
pub struct RecordType {
    pub package: String,
    pub package_version: String,
    pub interface: String,
    pub kebab_name: String,
    /// The fields' names and types, in order.
    pub fields: Vec<(String, String)>,
    pub type_id: [u8; 32],
    pub symbolic_name: String,
    pub is_copy: bool,
    pub direct: bool,
    pub kebab_collides_in_pkg: bool,
    /// The name that its encoding functions begin in.
    pub snake_name: String,
    /// The name that its helper functions end in.
    pub helper_snake: String,
    /// The function that decodes it.
    pub decoder_import: String,
    /// The function that encodes it.
    pub encoder_import: String,
}

/// A type of a package by its interface and name.
pub struct WitDecl {
    pub interface: String,
    pub kebab_name: String,
}

/// An enum of a package.
pub struct WitEnum {
    pub interface: String,
    pub kebab_name: String,
    pub cases: Vec<String>,
}

/// A type alias of a package.
pub struct WitTypeAlias {
    pub interface: String,
    pub kebab_name: String,
    pub body: String,
}

/// A WIT package.
pub struct WitPackage {
    /// Namespace and name, with `:` between them.
    pub ns_name: String,
    pub version: String,
    pub interfaces: Vec<String>,
    pub records: Vec<WitDecl>,
    pub resources: Vec<WitDecl>,
    pub variants: Vec<WitDecl>,
    pub enums: Vec<WitEnum>,
    pub flags: Vec<WitDecl>,
    pub type_aliases: Vec<WitTypeAlias>,
}

// ─── Names of entries ───

/// The SQL names of scalar entries.
pub open spec fn scalar_names(entries: Seq<(DispatchEntry, bool)>) -> Seq<Seq<char>> {
    entries.map_values(|e: (DispatchEntry, bool)| e.0.sql_name@)
}

/// Lists the SQL names of scalar entries.
pub fn list_scalar_names(entries: &Vec<(DispatchEntry, bool)>) -> (r: Vec<String>)
    ensures
        r@.len() == entries@.len(),
        text::strs(r@) == scalar_names(entries@),
{
    let mut r: Vec<String> = Vec::new();
    let mut k: usize = 0;
    while k < entries.len()
        invariant
            k <= entries@.len(),
            r@.len() == k,
            forall|j: int| 0 <= j < k ==> #[trigger] r@[j]@ == entries@[j].0.sql_name@,
        decreases entries.len() - k,
    {
        r.push(entries[k].0.sql_name.clone());
        k = k + 1;
    }
    assert(text::strs(r@) =~= scalar_names(entries@));
    r
}

/// The SQL names of table-function entries.
pub open spec fn udtf_names(entries: Seq<UdtfEntry>) -> Seq<Seq<char>> {
    entries.map_values(|e: UdtfEntry| e.sql_name@)
}

/// Lists the SQL names of table-function entries.
pub fn list_udtf_names(entries: &Vec<UdtfEntry>) -> (r: Vec<String>)
    ensures
        r@.len() == entries@.len(),
        text::strs(r@) == udtf_names(entries@),
{
    let mut r: Vec<String> = Vec::new();
    let mut k: usize = 0;
    while k < entries.len()
        invariant
            k <= entries@.len(),
            r@.len() == k,
            forall|j: int| 0 <= j < k ==> #[trigger] r@[j]@ == entries@[j].sql_name@,
        decreases entries.len() - k,
    {
        r.push(entries[k].sql_name.clone());
        k = k + 1;
    }
    assert(text::strs(r@) =~= udtf_names(entries@));
    r
}

/// The SQL names of window-function entries.
pub open spec fn window_names(entries: Seq<WindowEntry>) -> Seq<Seq<char>> {
    entries.map_values(|e: WindowEntry| e.sql_name@)
}

/// Lists the SQL names of window-function entries.
pub fn list_window_names(entries: &Vec<WindowEntry>) -> (r: Vec<String>)
    ensures
        r@.len() == entries@.len(),
        text::strs(r@) == window_names(entries@),
{
    let mut r: Vec<String> = Vec::new();
    let mut k: usize = 0;
    while k < entries.len()
        invariant
            k <= entries@.len(),
            r@.len() == k,
            forall|j: int| 0 <= j < k ==> #[trigger] r@[j]@ == entries@[j].sql_name@,
        decreases entries.len() - k,
    {
        r.push(entries[k].sql_name.clone());
        k = k + 1;
    }
    assert(text::strs(r@) =~= window_names(entries@));
    r
}

/// The names under which an aggregate is known: its own, then its aliases.
pub open spec fn names_of_aggregate(e: AggregateEntry) -> Seq<Seq<char>> {
    seq![e.sql_name@] + text::strs(e.aliases@)
}

/// The names of the first `n` aggregates, each with the position of its aggregate.
pub open spec fn aggregate_names_prefix(entries: Seq<AggregateEntry>, n: nat) -> Seq<
    (Seq<char>, int),
>
    decreases n,
{
    if n == 0 {
        Seq::empty()
    } else {
        aggregate_names_prefix(entries, (n - 1) as nat) + names_of_aggregate(
            entries[n - 1],
        ).map_values(|name: Seq<char>| (name, n - 1))
    }
}

/// The names of all aggregates, aliases included, each with the position of its aggregate.
pub open spec fn aggregate_names(entries: Seq<AggregateEntry>) -> Seq<(Seq<char>, int)> {
    aggregate_names_prefix(entries, entries.len())
}

/// The names alone.
pub open spec fn firsts(v: Seq<(Seq<char>, int)>) -> Seq<Seq<char>> {
    v.map_values(|p: (Seq<char>, int)| p.0)
}

/// The views of names with positions.
pub open spec fn named_positions(names: Seq<String>, positions: Seq<usize>) -> Seq<
    (Seq<char>, int),
> {
    Seq::new(names.len(), |j: int| (names[j]@, positions[j] as int))
}

/// Lists the names of all aggregates, aliases included, each with the position of its
/// aggregate.
pub fn list_aggregate_names(entries: &Vec<AggregateEntry>) -> (r: (Vec<String>, Vec<usize>))
    ensures
        r.0@.len() == r.1@.len(),
        named_positions(r.0@, r.1@) == aggregate_names(entries@),
        text::strs(r.0@) == firsts(aggregate_names(entries@)),
        forall|j: int| 0 <= j < r.1@.len() ==> #[trigger] r.1@[j] < entries@.len(),
{
    let mut names: Vec<String> = Vec::new();
    let mut at: Vec<usize> = Vec::new();
    let mut k: usize = 0;
    while k < entries.len()
        invariant
            k <= entries@.len(),
            names@.len() == at@.len(),
            named_positions(names@, at@) == aggregate_names_prefix(entries@, k as nat),
            forall|j: int| 0 <= j < at@.len() ==> #[trigger] at@[j] < entries@.len(),
        decreases entries.len() - k,
    {
        let ghost head = named_positions(names@, at@);
        let ghost here = names_of_aggregate(entries@[k as int]).map_values(
            |name: Seq<char>| (name, k as int),
        );
        names.push(entries[k].sql_name.clone());
        at.push(k);
        assert(named_positions(names@, at@) =~= head + here.take(1));
        let mut a: usize = 0;
        while a < entries[k].aliases.len()
            invariant
                k < entries@.len(),
                a <= entries@[k as int].aliases@.len(),
                names@.len() == at@.len(),
                here == names_of_aggregate(entries@[k as int]).map_values(
                    |name: Seq<char>| (name, k as int),
                ),
                named_positions(names@, at@) == head + here.take(a + 1),
                forall|j: int| 0 <= j < at@.len() ==> #[trigger] at@[j] < entries@.len(),
            decreases entries@[k as int].aliases@.len() - a,
        {
            let ghost was = named_positions(names@, at@);
            names.push(entries[k].aliases[a].clone());
            at.push(k);
            proof {
                let added = (entries@[k as int].aliases@[a as int]@, k as int);
                assert(here[a + 1] == added);
                assert(named_positions(names@, at@) =~= was.push(added));
                assert(here.take(a + 2) =~= here.take(a + 1).push(added));
                assert(head + here.take(a + 2) =~= (head + here.take(a + 1)).push(added));
            }
            a = a + 1;
        }
        assert(here.take(a + 1) =~= here);
        k = k + 1;
    }
    assert(text::strs(names@) =~= firsts(named_positions(names@, at@)));
    (names, at)
}

/// The type of an element has the same width and sign in Rust and in WIT; its helper bears the
/// name of the Rust type in lower case.
pub proof fn law_element_types(e: ListPrimElem)
    ensures
        match e {
            ListPrimElem::F64 => e.rust_type() == "f64"@ && e.wit_type() == "f64"@ && e.suffix() == "f64"@,
            ListPrimElem::F32 => e.rust_type() == "f32"@ && e.wit_type() == "f32"@ && e.suffix() == "f32"@,
            ListPrimElem::S32 => e.rust_type() == "i32"@ && e.wit_type() == "s32"@ && e.suffix() == "i32"@,
            ListPrimElem::S64 => e.rust_type() == "i64"@ && e.wit_type() == "s64"@ && e.suffix() == "i64"@,
            ListPrimElem::U32 => e.rust_type() == "u32"@ && e.wit_type() == "u32"@ && e.suffix() == "u32"@,
            ListPrimElem::U64 => e.rust_type() == "u64"@ && e.wit_type() == "u64"@ && e.suffix() == "u64"@,
            ListPrimElem::U8 => e.rust_type() == "u8"@ && e.wit_type() == "u8"@ && e.suffix() == "u8"@,
            ListPrimElem::Bool => e.rust_type() == "bool"@ && e.wit_type() == "bool"@ && e.suffix() == "bool"@,
            ListPrimElem::String => e.rust_type() == "String"@ && e.wit_type() == "string"@ && e.suffix() == "string"@,
        },
{
}

} // verus!
