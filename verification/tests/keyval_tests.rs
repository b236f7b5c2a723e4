use fql::keyval::{DirElement, Key, Query, TupElement, Value, ValueType, Variable};

#[test]
fn test_variable_any() {
    let var = Variable::any();
    assert_eq!(var.types.len(), 0);
}

#[test]
fn test_variable_with_types() {
    let var = Variable::with_types(vec![ValueType::Int, ValueType::String]);
    assert_eq!(var.types.len(), 2);
}

#[test]
fn test_query_constructors() {
    let dir = vec![DirElement::String("test".to_string())];
    let tuple = vec![TupElement::Int(42)];
    let key = Key::new(dir.clone(), tuple);
    let value = Value::Int(100);

    let q1 = Query::key_value(key.clone(), value);
    match q1 {
        Query::KeyValue(kv) => {
            assert_eq!(kv.value, Value::Int(100));
        }
        _ => panic!("Expected KeyValue"),
    }

    let q2 = Query::key(dir.clone(), vec![]);
    match q2 {
        Query::Key(_) => {}
        _ => panic!("Expected Key"),
    }

    let q3 = Query::directory(dir);
    match q3 {
        Query::Directory(_) => {}
        _ => panic!("Expected Directory"),
    }
}

#[test]
fn test_value_type_all() {
    let all = ValueType::all();
    assert_eq!(all.len(), 10);
    assert_eq!(all[0], ValueType::Any);
    assert_eq!(all[9], ValueType::VStamp);
}

#[test]
fn test_value_type_text() {
    assert_eq!(ValueType::Any.text(), "");
    assert_eq!(ValueType::Int.text(), "int");
    assert_eq!(ValueType::VStamp.text(), "vstamp");
}

#[test]
fn test_clone_preserves_values() {
    let kv = fql::keyval::KeyValue::new(
        Key::new(
            vec![DirElement::String("users".to_string())],
            vec![
                TupElement::Tuple(vec![TupElement::Int(-3), TupElement::Bytes(vec![1, 2])]),
                TupElement::String("name".to_string()),
            ],
        ),
        Value::Uuid([7u8; 16]),
    );
    let copy = kv.clone();
    assert_eq!(copy, kv);
}
