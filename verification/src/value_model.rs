//! Values and types that every database can hold, and columns of them.
//!
//! An extension declares its functions in these types alone. What is outside the closed set
//! goes through [`NeutralType::Complex`] and [`NeutralValue::Complex`].

use vstd::prelude::*;

use crate::text::same;

verus! {

/// The closed set of types that a function may name.
#[derive(Clone, Debug, PartialEq, Eq)]
pub enum NeutralType {
    /// A logical boolean; SQLite holds it as the integer 0 or 1.
    Boolean,
    /// A signed integer of 64 bits.
    Int64,
    /// An IEEE-754 double.
    Float64,
    /// UTF-8 text.
    Text,
    /// Bytes.
    Blob,
    /// Any other type, by its type expression.
    Complex(String),
}

/// A value.
#[derive(Clone, Debug)]
pub enum NeutralValue {
    /// SQL NULL.
    Null,
    Boolean(bool),
    Int64(i64),
    /// An IEEE-754 double, by its bits.
    Float64(u64),
    Text(String),
    Blob(Vec<u8>),
    /// A value of another type: the type expression and the value as JSON.
    Complex { type_expr: String, json: String },
}

/// What a value is.
pub ghost enum ValueView {
    Null,
    Boolean(bool),
    Int64(i64),
    Float64(u64),
    Text(Seq<char>),
    Blob(Seq<u8>),
    Complex { type_expr: Seq<char>, json: Seq<char> },
}

/// What a type is.
pub ghost enum TypeView {
    Boolean,
    Int64,
    Float64,
    Text,
    Blob,
    Complex(Seq<char>),
}

impl View for NeutralType {
    type V = TypeView;

    open spec fn view(&self) -> TypeView {
        match self {
            NeutralType::Boolean => TypeView::Boolean,
            NeutralType::Int64 => TypeView::Int64,
            NeutralType::Float64 => TypeView::Float64,
            NeutralType::Text => TypeView::Text,
            NeutralType::Blob => TypeView::Blob,
            NeutralType::Complex(e) => TypeView::Complex(e@),
        }
    }
}

impl View for NeutralValue {
    type V = ValueView;

    open spec fn view(&self) -> ValueView {
        match self {
            NeutralValue::Null => ValueView::Null,
            NeutralValue::Boolean(b) => ValueView::Boolean(*b),
            NeutralValue::Int64(n) => ValueView::Int64(*n),
            NeutralValue::Float64(bits) => ValueView::Float64(*bits),
            NeutralValue::Text(s) => ValueView::Text(s@),
            NeutralValue::Blob(b) => ValueView::Blob(b@),
            NeutralValue::Complex { type_expr, json } => ValueView::Complex {
                type_expr: type_expr@,
                json: json@,
            },
        }
    }
}

/// The type of a value; NULL has none.
pub open spec fn type_of(v: ValueView) -> Option<TypeView> {
    match v {
        ValueView::Null => None,
        ValueView::Boolean(_) => Some(TypeView::Boolean),
        ValueView::Int64(_) => Some(TypeView::Int64),
        ValueView::Float64(_) => Some(TypeView::Float64),
        ValueView::Text(_) => Some(TypeView::Text),
        ValueView::Blob(_) => Some(TypeView::Blob),
        ValueView::Complex { type_expr, json } => Some(TypeView::Complex(type_expr)),
    }
}

impl NeutralValue {
    /// The type that this value carries, or nothing for NULL, which inhabits any type.
    pub fn neutral_type(&self) -> (r: Option<NeutralType>)
        ensures
            match r {
                Some(t) => type_of(self@) == Some(t@),
                None => type_of(self@) is None,
            },
    {
        match self {
            NeutralValue::Null => None,
            NeutralValue::Boolean(_) => Some(NeutralType::Boolean),
            NeutralValue::Int64(_) => Some(NeutralType::Int64),
            NeutralValue::Float64(_) => Some(NeutralType::Float64),
            NeutralValue::Text(_) => Some(NeutralType::Text),
            NeutralValue::Blob(_) => Some(NeutralType::Blob),
            NeutralValue::Complex { type_expr, json: _ } => Some(
                NeutralType::Complex(type_expr.clone()),
            ),
        }
    }

    /// Whether this is NULL.
    pub fn is_null(&self) -> (r: bool)
        ensures
            r == (self@ is Null),
    {
        match self {
            NeutralValue::Null => true,
            _ => false,
        }
    }
}

// ─── Comparing values ───

/// The bits of a double without its sign.
pub open spec fn magnitude(bits: u64) -> int {
    bits as int % 0x8000_0000_0000_0000
}

/// Whether the bits are those of no number: all bits of the exponent are set, and some of the
/// fraction.
pub open spec fn not_a_number(bits: u64) -> bool {
    magnitude(bits) > 0x7ff0_0000_0000_0000
}

/// Whether two doubles are equal: what is no number equals nothing, and the two zeros are equal.
pub open spec fn doubles_equal(a: u64, b: u64) -> bool {
    !not_a_number(a) && !not_a_number(b) && (a == b || (magnitude(a) == 0 && magnitude(b) == 0))
}

/// Whether two values are equal: of one kind, and with equal contents.
pub open spec fn values_equal(a: ValueView, b: ValueView) -> bool {
    match (a, b) {
        (ValueView::Float64(x), ValueView::Float64(y)) => doubles_equal(x, y),
        _ => a == b,
    }
}

fn are_doubles_equal(a: u64, b: u64) -> (r: bool)
    ensures
        r == doubles_equal(a, b),
{
    let x: u64 = a % 0x8000_0000_0000_0000;
    let y: u64 = b % 0x8000_0000_0000_0000;
    x <= 0x7ff0_0000_0000_0000 && y <= 0x7ff0_0000_0000_0000 && (a == b || (x == 0 && y == 0))
}

fn are_bytes_equal(a: &Vec<u8>, b: &Vec<u8>) -> (r: bool)
    ensures
        r == (a@ == b@),
{
    if a.len() != b.len() {
        return false;
    }
    let mut k: usize = 0;
    while k < a.len()
        invariant
            k <= a@.len(),
            a@.len() == b@.len(),
            forall|j: int| 0 <= j < k ==> a@[j] == b@[j],
        decreases a.len() - k,
    {
        if a[k] != b[k] {
            return false;
        }
        k = k + 1;
    }
    assert(a@ =~= b@);
    true
}

impl NeutralValue {
    /// Whether this value equals `other`.
    pub fn equals(&self, other: &NeutralValue) -> (r: bool)
        ensures
            r == values_equal(self@, other@),
    {
        match (self, other) {
            (NeutralValue::Null, NeutralValue::Null) => true,
            (NeutralValue::Boolean(a), NeutralValue::Boolean(b)) => *a == *b,
            (NeutralValue::Int64(a), NeutralValue::Int64(b)) => *a == *b,
            (NeutralValue::Float64(a), NeutralValue::Float64(b)) => are_doubles_equal(*a, *b),
            (NeutralValue::Text(a), NeutralValue::Text(b)) => same(a.as_str(), b.as_str()),
            (NeutralValue::Blob(a), NeutralValue::Blob(b)) => are_bytes_equal(a, b),
            (
                NeutralValue::Complex { type_expr: a, json: x },
                NeutralValue::Complex { type_expr: b, json: y },
            ) => same(a.as_str(), b.as_str()) && same(x.as_str(), y.as_str()),
            _ => false,
        }
    }
}

impl PartialEq for NeutralValue {
    fn eq(&self, other: &NeutralValue) -> (r: bool) {
        self.equals(other)
    }
}

impl vstd::std_specs::cmp::PartialEqSpecImpl for NeutralValue {
    open spec fn obeys_eq_spec() -> bool {
        true
    }

    open spec fn eq_spec(&self, other: &NeutralValue) -> bool {
        values_equal(self@, other@)
    }
}

/// A column: one buffer of values of one type.
#[derive(Clone, Debug)]
pub enum NeutralColumn {
    Boolean(Vec<bool>),
    Int64(Vec<i64>),
    /// IEEE-754 doubles, by their bits.
    Float64(Vec<u64>),
    Text(Vec<String>),
    Blob(Vec<Vec<u8>>),
    /// Values of another type: one type expression for all, and each value as JSON.
    Complex { type_expr: String, json: Vec<String> },
}

/// The values of a column, in order.
pub open spec fn values(c: NeutralColumn) -> Seq<ValueView> {
    match c {
        NeutralColumn::Boolean(v) => v@.map_values(|b: bool| ValueView::Boolean(b)),
        NeutralColumn::Int64(v) => v@.map_values(|n: i64| ValueView::Int64(n)),
        NeutralColumn::Float64(v) => v@.map_values(|bits: u64| ValueView::Float64(bits)),
        NeutralColumn::Text(v) => v@.map_values(|s: String| ValueView::Text(s@)),
        NeutralColumn::Blob(v) => v@.map_values(|b: Vec<u8>| ValueView::Blob(b@)),
        NeutralColumn::Complex { type_expr, json } => json@.map_values(
            |s: String| ValueView::Complex { type_expr: type_expr@, json: s@ },
        ),
    }
}

/// The type of a column's values.
pub open spec fn column_type(c: NeutralColumn) -> TypeView {
    match c {
        NeutralColumn::Boolean(_) => TypeView::Boolean,
        NeutralColumn::Int64(_) => TypeView::Int64,
        NeutralColumn::Float64(_) => TypeView::Float64,
        NeutralColumn::Text(_) => TypeView::Text,
        NeutralColumn::Blob(_) => TypeView::Blob,
        NeutralColumn::Complex { type_expr, json } => TypeView::Complex(type_expr@),
    }
}

fn copy_bytes(b: &Vec<u8>) -> (r: Vec<u8>)
    ensures
        r@ == b@,
{
    let mut r: Vec<u8> = Vec::new();
    let mut k: usize = 0;
    while k < b.len()
        invariant
            k <= b@.len(),
            r@ == b@.take(k as int),
        decreases b.len() - k,
    {
        r.push(b[k]);
        proof {
            assert(b@.take(k + 1) =~= b@.take(k as int).push(b@[k as int]));
        }
        k = k + 1;
    }
    assert(b@.take(k as int) =~= b@);
    r
}

impl NeutralColumn {
    /// The number of rows.
    pub fn len(&self) -> (r: usize)
        ensures
            r == values(*self).len(),
    {
        match self {
            NeutralColumn::Boolean(v) => v.len(),
            NeutralColumn::Int64(v) => v.len(),
            NeutralColumn::Float64(v) => v.len(),
            NeutralColumn::Text(v) => v.len(),
            NeutralColumn::Blob(v) => v.len(),
            NeutralColumn::Complex { type_expr: _, json } => json.len(),
        }
    }

    /// Whether there are no rows.
    pub fn is_empty(&self) -> (r: bool)
        ensures
            r == (values(*self).len() == 0),
    {
        self.len() == 0
    }

    /// The type that every value of this column carries.
    pub fn neutral_type(&self) -> (r: NeutralType)
        ensures
            r@ == column_type(*self),
    {
        match self {
            NeutralColumn::Boolean(_) => NeutralType::Boolean,
            NeutralColumn::Int64(_) => NeutralType::Int64,
            NeutralColumn::Float64(_) => NeutralType::Float64,
            NeutralColumn::Text(_) => NeutralType::Text,
            NeutralColumn::Blob(_) => NeutralType::Blob,
            NeutralColumn::Complex { type_expr, json: _ } => NeutralType::Complex(
                type_expr.clone(),
            ),
        }
    }

    /// The value of row `i`, or NULL where the row is not valid.
    pub fn value_at(&self, i: usize, valid: bool) -> (r: NeutralValue)
        requires
            valid ==> i < values(*self).len(),
        ensures
            r@ == if valid {
                values(*self)[i as int]
            } else {
                ValueView::Null
            },
    {
        if !valid {
            return NeutralValue::Null;
        }
        match self {
            NeutralColumn::Boolean(v) => NeutralValue::Boolean(v[i]),
            NeutralColumn::Int64(v) => NeutralValue::Int64(v[i]),
            NeutralColumn::Float64(v) => NeutralValue::Float64(v[i]),
            NeutralColumn::Text(v) => NeutralValue::Text(v[i].clone()),
            NeutralColumn::Blob(v) => NeutralValue::Blob(copy_bytes(&v[i])),
            NeutralColumn::Complex { type_expr, json } => NeutralValue::Complex {
                type_expr: type_expr.clone(),
                json: json[i].clone(),
            },
        }
    }
}

/// Whether two columns are equal: of one type, and with equal values in order.
pub open spec fn columns_equal(a: NeutralColumn, b: NeutralColumn) -> bool {
    &&& column_type(a) == column_type(b)
    &&& values(a).len() == values(b).len()
    &&& forall|k: int|
        0 <= k < values(a).len() ==> values_equal(#[trigger] values(a)[k], values(b)[k])
}

impl NeutralColumn {
    /// Whether this column and `other` are of one type.
    fn is_of_type(&self, other: &NeutralColumn) -> (r: bool)
        ensures
            r == (column_type(*self) == column_type(*other)),
    {
        match (self, other) {
            (NeutralColumn::Boolean(_), NeutralColumn::Boolean(_)) => true,
            (NeutralColumn::Int64(_), NeutralColumn::Int64(_)) => true,
            (NeutralColumn::Float64(_), NeutralColumn::Float64(_)) => true,
            (NeutralColumn::Text(_), NeutralColumn::Text(_)) => true,
            (NeutralColumn::Blob(_), NeutralColumn::Blob(_)) => true,
            (
                NeutralColumn::Complex { type_expr: a, json: _ },
                NeutralColumn::Complex { type_expr: b, json: _ },
            ) => same(a.as_str(), b.as_str()),
            _ => false,
        }
    }

    /// Whether this column equals `other`.
    pub fn equals(&self, other: &NeutralColumn) -> (r: bool)
        ensures
            r == columns_equal(*self, *other),
    {
        if !self.is_of_type(other) || self.len() != other.len() {
            return false;
        }
        let n = self.len();
        let mut k: usize = 0;
        while k < n
            invariant
                k <= n,
                n == values(*self).len(),
                n == values(*other).len(),
                forall|j: int|
                    0 <= j < k ==> values_equal(#[trigger] values(*self)[j], values(*other)[j]),
            decreases n - k,
        {
            let a = self.value_at(k, true);
            let b = other.value_at(k, true);
            if !a.equals(&b) {
                return false;
            }
            k = k + 1;
        }
        true
    }
}

impl PartialEq for NeutralColumn {
    fn eq(&self, other: &NeutralColumn) -> (r: bool) {
        self.equals(other)
    }
}

impl vstd::std_specs::cmp::PartialEqSpecImpl for NeutralColumn {
    open spec fn obeys_eq_spec() -> bool {
        true
    }

    open spec fn eq_spec(&self, other: &NeutralColumn) -> bool {
        columns_equal(*self, *other)
    }
}

/// A column with its validity: a bitmap, lowest bit first, in which a set bit marks a valid
/// row; an empty bitmap marks all rows.
#[derive(Clone, Debug)]
pub struct NeutralColVec {
    pub data: NeutralColumn,
    pub validity: Vec<u8>,
    pub rows: usize,
}

/// Whether bit `k` of a byte is set, counted from the lowest.
pub open spec fn bit_set(byte: u8, k: u8) -> bool {
    (byte >> k) & 1 == 1
}

/// Whether a bitmap marks row `i`: an empty one marks every row, and so does one that is too
/// short to hold the row's bit.
pub open spec fn marks(validity: Seq<u8>, i: nat) -> bool {
    validity.len() == 0 || i / 8 >= validity.len() || bit_set(
        validity[(i / 8) as int],
        (i % 8) as u8,
    )
}

impl NeutralColVec {
    /// A column all of whose rows are valid.
    pub fn all_valid(data: NeutralColumn) -> (r: Self)
        ensures
            r.data == data,
            r.validity@.len() == 0,
            r.rows == values(data).len(),
    {
        let rows = data.len();
        NeutralColVec { data, validity: Vec::new(), rows }
    }

    /// Whether row `i` is valid.
    pub fn is_valid(&self, i: usize) -> (r: bool)
        ensures
            r == marks(self.validity@, i as nat),
    {
        if self.validity.len() == 0 {
            return true;
        }
        let byte: usize = i / 8;
        if byte >= self.validity.len() {
            return true;
        }
        let b = self.validity[byte];
        let k: u8 = (i % 8) as u8;
        assert((b >> k) & 1 == 0 || (b >> k) & 1 == 1) by (bit_vector);
        (b >> k) & 1 != 0
    }

    /// The value of row `i`, NULL where the row is not valid.
    pub fn value_at(&self, i: usize) -> (r: NeutralValue)
        requires
            marks(self.validity@, i as nat) ==> i < values(self.data).len(),
        ensures
            r@ == if marks(self.validity@, i as nat) {
                values(self.data)[i as int]
            } else {
                ValueView::Null
            },
    {
        let valid = self.is_valid(i);
        self.data.value_at(i, valid)
    }
}

/// Whether two columns with validity are equal in each of their parts.
pub open spec fn colvecs_equal(a: NeutralColVec, b: NeutralColVec) -> bool {
    columns_equal(a.data, b.data) && a.validity@ == b.validity@ && a.rows == b.rows
}

impl NeutralColVec {
    /// Whether this column equals `other`, its bitmap and number of rows included.
    pub fn equals(&self, other: &NeutralColVec) -> (r: bool)
        ensures
            r == colvecs_equal(*self, *other),
    {
        self.data.equals(&other.data) && are_bytes_equal(&self.validity, &other.validity)
            && self.rows == other.rows
    }
}

impl PartialEq for NeutralColVec {
    fn eq(&self, other: &NeutralColVec) -> (r: bool) {
        self.equals(other)
    }
}

impl vstd::std_specs::cmp::PartialEqSpecImpl for NeutralColVec {
    open spec fn obeys_eq_spec() -> bool {
        true
    }

    open spec fn eq_spec(&self, other: &NeutralColVec) -> bool {
        colvecs_equal(*self, *other)
    }
}

/// How a function treats a NULL argument.
#[derive(Clone, Copy, Debug, PartialEq, Eq, Structural)]
pub enum NullHandling {
    /// The result is NULL where any argument is, and the function is not called.
    Propagate,
    /// The function is called and looks at the NULL itself.
    Called,
}

/// What a declared function is.
#[derive(Clone, Copy, Debug, PartialEq, Eq, Structural)]
pub enum CapabilityKind {
    /// From values to a value.
    Scalar,
    /// From the rows of a group to a value.
    Aggregate,
}

/// One declared function of an extension.
#[derive(Clone, Debug)]
pub struct FnDecl {
    /// The name that SQL sees.
    pub name: &'static str,
    pub kind: CapabilityKind,
    /// The types of the arguments, in order.
    pub args: &'static [NeutralType],
    pub ret: NeutralType,
    pub null_handling: NullHandling,
    /// Whether the same input gives the same output.
    pub deterministic: bool,
}

// ─── Laws ───

/// A column made all valid marks every row.
pub proof fn law_empty_bitmap_marks_all(i: nat)
    ensures
        marks(Seq::empty(), i),
{
}

/// Every value of a column carries the column's type, and none is NULL.
pub proof fn law_column_values_typed(c: NeutralColumn, i: int)
    requires
        0 <= i < values(c).len(),
    ensures
        type_of(values(c)[i]) == Some(column_type(c)),
        !(values(c)[i] is Null),
{
}

/// Equality of values is symmetric and transitive, and values that are equal have one type.
pub proof fn law_values_equal(a: ValueView, b: ValueView, c: ValueView)
    ensures
        values_equal(a, b) == values_equal(b, a),
        values_equal(a, b) && values_equal(b, c) ==> values_equal(a, c),
        values_equal(a, b) ==> type_of(a) == type_of(b),
{
}

/// A value equals itself unless it is a double that is no number.
pub proof fn law_value_equals_itself(a: ValueView)
    ensures
        values_equal(a, a) <==> !(a matches ValueView::Float64(bits) && not_a_number(bits)),
{
}

/// Columns are symmetric in equality, and a column equals itself just where each of its values
/// does.
pub proof fn law_columns_equal(a: NeutralColumn, b: NeutralColumn)
    ensures
        columns_equal(a, b) == columns_equal(b, a),
        columns_equal(a, a) <==> forall|k: int|
            0 <= k < values(a).len() ==> values_equal(#[trigger] values(a)[k], values(a)[k]),
{
    assert forall|x: NeutralColumn, y: NeutralColumn| columns_equal(x, y) implies columns_equal(
        y,
        x,
    ) by {
        assert forall|k: int| 0 <= k < values(y).len() implies values_equal(
            #[trigger] values(y)[k],
            values(x)[k],
        ) by {
            assert(values_equal(values(x)[k], values(y)[k]));
        }
    }
}

/// A value is NULL exactly where it has no type.
pub proof fn law_null_has_no_type(v: ValueView)
    ensures
        v is Null <==> type_of(v) is None,
{
}

/// Where a bitmap has a byte for a row, the eight rows of that byte are marked as its bits say:
/// a byte of ones marks all of them, a byte of zeros none.
pub proof fn law_bitmap_bytes(validity: Seq<u8>, i: nat)
    requires
        i / 8 < validity.len(),
    ensures
        validity[(i / 8) as int] == 0xff ==> marks(validity, i),
        validity[(i / 8) as int] == 0 ==> !marks(validity, i),
{
    let k = (i % 8) as u8;
    assert(k < 8);
    assert((0xffu8 >> k) & 1 == 1) by (bit_vector)
        requires
            k < 8,
    ;
    assert((0u8 >> k) & 1 == 0) by (bit_vector);
}

} // verus!
