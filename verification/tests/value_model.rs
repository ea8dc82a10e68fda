//! Values, types and columns.

use shim_bridge_emit::value_model::{
    CapabilityKind, FnDecl, NeutralColVec, NeutralColumn, NeutralType, NeutralValue, NullHandling,
};

#[test]
fn values_carry_types_but_null() {
    assert_eq!(NeutralValue::Null.neutral_type(), None);
    assert!(NeutralValue::Null.is_null());
    assert_eq!(NeutralValue::Boolean(true).neutral_type(), Some(NeutralType::Boolean));
    assert_eq!(NeutralValue::Int64(-1).neutral_type(), Some(NeutralType::Int64));
    assert_eq!(
        NeutralValue::Float64((1.5f64).to_bits()).neutral_type(),
        Some(NeutralType::Float64)
    );
    assert_eq!(NeutralValue::Text("x".to_string()).neutral_type(), Some(NeutralType::Text));
    assert_eq!(NeutralValue::Blob(vec![1]).neutral_type(), Some(NeutralType::Blob));
    let complex = NeutralValue::Complex {
        type_expr: "list<u8>".to_string(),
        json: "[1]".to_string(),
    };
    assert_eq!(complex.neutral_type(), Some(NeutralType::Complex("list<u8>".to_string())));
    assert!(!complex.is_null());
}

#[test]
fn columns_give_typed_values() {
    let column = NeutralColumn::Int64(vec![7, 8]);
    assert_eq!(column.len(), 2);
    assert!(!column.is_empty());
    assert_eq!(column.neutral_type(), NeutralType::Int64);
    assert!(matches!(column.value_at(1, true), NeutralValue::Int64(8)));
    assert!(matches!(column.value_at(9, false), NeutralValue::Null));
    let texts = NeutralColumn::Text(vec!["a".to_string()]);
    assert!(matches!(texts.value_at(0, true), NeutralValue::Text(s) if s == "a"));
    let blobs = NeutralColumn::Blob(vec![vec![1, 2]]);
    assert!(matches!(blobs.value_at(0, true), NeutralValue::Blob(b) if b == vec![1, 2]));
    let complex = NeutralColumn::Complex {
        type_expr: "t".to_string(),
        json: vec!["1".to_string()],
    };
    assert_eq!(complex.len(), 1);
    assert!(matches!(
        complex.value_at(0, true),
        NeutralValue::Complex { type_expr, json } if type_expr == "t" && json == "1"
    ));
    assert!(NeutralColumn::Boolean(vec![]).is_empty());
    let floats = NeutralColumn::Float64(vec![(2.5f64).to_bits()]);
    assert!(matches!(
        floats.value_at(0, true),
        NeutralValue::Float64(bits) if f64::from_bits(bits) == 2.5
    ));
}

#[test]
fn validity_is_a_bitmap_lowest_bit_first() {
    let all = NeutralColVec::all_valid(NeutralColumn::Int64(vec![1, 2, 3]));
    assert_eq!(all.rows, 3);
    assert!(all.is_valid(0) && all.is_valid(2));
    let some = NeutralColVec {
        data: NeutralColumn::Int64(vec![1, 2, 3, 4, 5, 6, 7, 8, 9]),
        validity: vec![0b0000_0101],
        rows: 9,
    };
    assert!(some.is_valid(0));
    assert!(!some.is_valid(1));
    assert!(some.is_valid(2));
    assert!(!some.is_valid(7));
    assert!(some.is_valid(8));
    assert!(matches!(some.value_at(1), NeutralValue::Null));
    assert!(matches!(some.value_at(2), NeutralValue::Int64(3)));
    assert!(matches!(some.value_at(8), NeutralValue::Int64(9)));
}

#[test]
fn functions_are_declared() {
    let decl = FnDecl {
        name: "st_area",
        kind: CapabilityKind::Scalar,
        args: &[NeutralType::Blob],
        ret: NeutralType::Float64,
        null_handling: NullHandling::Propagate,
        deterministic: true,
    };
    assert_eq!(decl.args.len(), 1);
    assert_eq!(decl.ret, NeutralType::Float64);
    assert!(decl.kind == CapabilityKind::Scalar);
    assert!(decl.null_handling != NullHandling::Called);
}

fn double(x: f64) -> NeutralValue {
    NeutralValue::Float64(x.to_bits())
}

#[test]
fn values_compare_by_their_contents() {
    let doubles = [0.0, -0.0, 1.5, -1.5, f64::INFINITY, f64::NEG_INFINITY, f64::NAN, -f64::NAN];
    for a in doubles {
        for b in doubles {
            assert_eq!(double(a) == double(b), a == b);
            assert_eq!(double(a).equals(&double(b)), a == b);
            let (x, y) = (vec![a.to_bits(), 0], vec![b.to_bits(), 0]);
            assert_eq!(NeutralColumn::Float64(x) == NeutralColumn::Float64(y), a == b);
        }
    }
    assert_eq!(double(f64::from_bits(1)) == double(0.0), false);
    assert_eq!(NeutralValue::Null, NeutralValue::Null);
    assert_ne!(NeutralValue::Null, NeutralValue::Boolean(false));
    assert_ne!(NeutralValue::Int64(0), NeutralValue::Boolean(false));
    assert_eq!(NeutralValue::Int64(-7), NeutralValue::Int64(-7));
    assert_eq!(NeutralValue::Text("a".to_string()), NeutralValue::Text("a".to_string()));
    assert_ne!(NeutralValue::Text("a".to_string()), NeutralValue::Text("b".to_string()));
    assert_eq!(NeutralValue::Blob(vec![1, 2]), NeutralValue::Blob(vec![1, 2]));
    assert_ne!(NeutralValue::Blob(vec![1, 2]), NeutralValue::Blob(vec![1]));
    let complex = |t: &str, j: &str| NeutralValue::Complex {
        type_expr: t.to_string(),
        json: j.to_string(),
    };
    assert_eq!(complex("t", "1"), complex("t", "1"));
    assert_ne!(complex("t", "1"), complex("t", "2"));
    assert_ne!(complex("t", "1"), complex("u", "1"));
}

#[test]
fn columns_compare_by_their_contents() {
    assert_eq!(NeutralColumn::Int64(vec![1, 2]), NeutralColumn::Int64(vec![1, 2]));
    assert_ne!(NeutralColumn::Int64(vec![1, 2]), NeutralColumn::Int64(vec![1, 3]));
    assert_ne!(NeutralColumn::Int64(vec![1, 2]), NeutralColumn::Int64(vec![1]));
    assert_ne!(NeutralColumn::Int64(vec![]), NeutralColumn::Boolean(vec![]));
    let empty = |t: &str| NeutralColumn::Complex { type_expr: t.to_string(), json: vec![] };
    assert_eq!(empty("t"), empty("t"));
    assert_ne!(empty("t"), empty("u"));
    let all = NeutralColVec::all_valid(NeutralColumn::Int64(vec![1]));
    assert_eq!(all, NeutralColVec::all_valid(NeutralColumn::Int64(vec![1])));
    let mut marked = all.clone();
    marked.validity = vec![0xff];
    assert_ne!(all, marked);
    let mut longer = all.clone();
    longer.rows = 2;
    assert_ne!(all, longer);
    assert!(!all.equals(&longer));
}
