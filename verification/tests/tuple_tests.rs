use fql::keyval::{TupElement, ValueType, Variable};
use fql::tuple::{compare, matches_type};

#[test]
fn test_compare_empty_tuples() {
    let schema = vec![];
    let candidate = vec![];
    assert_eq!(compare(&schema, &candidate), None);
}

#[test]
fn test_compare_empty_schema_nonempty_candidate() {
    let schema = vec![];
    let candidate = vec![TupElement::Int(1)];
    assert_eq!(compare(&schema, &candidate), Some(vec![0]));
}

#[test]
fn test_compare_exact_match() {
    let schema = vec![TupElement::Int(42), TupElement::String("hello".to_string())];
    let candidate = vec![TupElement::Int(42), TupElement::String("hello".to_string())];
    assert_eq!(compare(&schema, &candidate), None);
}

#[test]
fn test_compare_mismatch() {
    let schema = vec![TupElement::Int(42), TupElement::String("hello".to_string())];
    let candidate = vec![TupElement::Int(43), TupElement::String("hello".to_string())];
    assert_eq!(compare(&schema, &candidate), Some(vec![0]));
}

#[test]
fn test_compare_with_variable_any() {
    let schema = vec![TupElement::Int(42), TupElement::Variable(Variable::any())];
    let candidate = vec![TupElement::Int(42), TupElement::String("anything".to_string())];
    assert_eq!(compare(&schema, &candidate), None);
}

#[test]
fn test_compare_with_variable_type_constraint() {
    let schema = vec![
        TupElement::Int(42),
        TupElement::Variable(Variable::with_types(vec![ValueType::String])),
    ];
    let candidate1 = vec![TupElement::Int(42), TupElement::String("ok".to_string())];
    assert_eq!(compare(&schema, &candidate1), None);

    let candidate2 = vec![TupElement::Int(42), TupElement::Int(99)];
    assert_eq!(compare(&schema, &candidate2), Some(vec![1]));
}

#[test]
fn test_compare_with_maybe_more() {
    let schema = vec![TupElement::Int(42), TupElement::MaybeMore];
    let candidate = vec![
        TupElement::Int(42),
        TupElement::String("extra".to_string()),
        TupElement::Bool(true),
    ];
    assert_eq!(compare(&schema, &candidate), None);
}

#[test]
fn test_compare_without_maybe_more_length_mismatch() {
    let schema = vec![TupElement::Int(42)];
    let candidate = vec![TupElement::Int(42), TupElement::String("extra".to_string())];
    assert_eq!(compare(&schema, &candidate), Some(vec![1]));
}

#[test]
fn test_compare_nested_tuples() {
    let schema = vec![
        TupElement::Int(1),
        TupElement::Tuple(vec![
            TupElement::String("nested".to_string()),
            TupElement::Variable(Variable::any()),
        ]),
    ];
    let candidate = vec![
        TupElement::Int(1),
        TupElement::Tuple(vec![
            TupElement::String("nested".to_string()),
            TupElement::Bool(true),
        ]),
    ];
    assert_eq!(compare(&schema, &candidate), None);
}

#[test]
fn test_compare_nested_tuples_mismatch() {
    let schema = vec![
        TupElement::Int(1),
        TupElement::Tuple(vec![TupElement::String("nested".to_string()), TupElement::Int(99)]),
    ];
    let candidate = vec![
        TupElement::Int(1),
        TupElement::Tuple(vec![
            TupElement::String("nested".to_string()),
            TupElement::Int(100),
        ]),
    ];
    assert_eq!(compare(&schema, &candidate), Some(vec![1, 1]));
}

#[test]
fn test_compare_candidate_too_short() {
    let schema = vec![TupElement::Int(1), TupElement::Int(2)];
    let candidate = vec![TupElement::Int(1)];
    assert_eq!(compare(&schema, &candidate), Some(vec![1]));
}

#[test]
fn test_compare_maybe_more_not_terminal() {
    // A tail wildcard anywhere but last marks an ill-formed schema.
    let schema = vec![TupElement::MaybeMore, TupElement::Int(1)];
    let candidate = vec![TupElement::Int(7), TupElement::Int(1)];
    assert_eq!(compare(&schema, &candidate), Some(vec![0]));
}

#[test]
fn test_compare_float_bit_equality() {
    let schema = vec![TupElement::Float(1.5f64.to_bits())];
    let same = vec![TupElement::Float(1.5f64.to_bits())];
    let other = vec![TupElement::Float(2.5f64.to_bits())];
    assert_eq!(compare(&schema, &same), None);
    assert_eq!(compare(&schema, &other), Some(vec![0]));
}

#[test]
fn test_compare_uuid_and_vstamp() {
    let stamp = fql::keyval::VStamp {
        tx_version: [1, 2, 3, 4, 5, 6, 7, 8, 9, 10],
        user_version: 7,
    };
    let schema = vec![TupElement::Uuid([9u8; 16]), TupElement::VStamp(stamp)];
    let candidate = vec![TupElement::Uuid([9u8; 16]), TupElement::VStamp(stamp)];
    assert_eq!(compare(&schema, &candidate), None);

    let other = vec![TupElement::Uuid([8u8; 16]), TupElement::VStamp(stamp)];
    assert_eq!(compare(&schema, &other), Some(vec![0]));
}

#[test]
fn test_matches_type() {
    assert!(matches_type(&TupElement::Int(1), ValueType::Any));
    assert!(matches_type(&TupElement::Int(1), ValueType::Int));
    assert!(!matches_type(&TupElement::Int(1), ValueType::Uint));
    assert!(matches_type(&TupElement::Tuple(vec![]), ValueType::Tuple));
    assert!(matches_type(&TupElement::Bytes(vec![]), ValueType::Bytes));
}
