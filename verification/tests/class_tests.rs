use fql::class::{classify, Class};
use fql::keyval::{Key, KeyValue, TupElement, Value, Variable, VStampFuture};

#[test]
fn test_classify_constant() {
    let kv = KeyValue {
        key: Key {
            directory: vec![],
            tuple: vec![TupElement::Int(42)],
        },
        value: Value::String("test".to_string()),
    };
    assert_eq!(classify(&kv), Class::Constant);
}

#[test]
fn test_classify_clear() {
    let kv = KeyValue {
        key: Key {
            directory: vec![],
            tuple: vec![TupElement::Int(42)],
        },
        value: Value::Clear,
    };
    assert_eq!(classify(&kv), Class::Clear);
}

#[test]
fn test_classify_read_single() {
    let kv = KeyValue {
        key: Key {
            directory: vec![],
            tuple: vec![TupElement::Int(42)],
        },
        value: Value::Variable(Variable::any()),
    };
    assert_eq!(classify(&kv), Class::ReadSingle);
}

#[test]
fn test_classify_read_range() {
    let kv = KeyValue {
        key: Key {
            directory: vec![],
            tuple: vec![TupElement::Int(42), TupElement::MaybeMore],
        },
        value: Value::Variable(Variable::any()),
    };
    assert_eq!(classify(&kv), Class::ReadRange);
}

#[test]
fn test_classify_vstamp_key() {
    let kv = KeyValue {
        key: Key {
            directory: vec![],
            tuple: vec![TupElement::VStampFuture(VStampFuture { user_version: 0 })],
        },
        value: Value::Int(42),
    };
    assert_eq!(classify(&kv), Class::VStampKey);
}

#[test]
fn test_classify_vstamp_val() {
    let kv = KeyValue {
        key: Key {
            directory: vec![],
            tuple: vec![TupElement::Int(42)],
        },
        value: Value::VStampFuture(VStampFuture { user_version: 0 }),
    };
    assert_eq!(classify(&kv), Class::VStampVal);
}

#[test]
fn test_classify_vstamp_and_variable_invalid() {
    // A future versionstamp beside a variable mixes two exclusive attributes.
    let kv = KeyValue {
        key: Key {
            directory: vec![],
            tuple: vec![
                TupElement::VStampFuture(VStampFuture { user_version: 0 }),
                TupElement::Variable(Variable::any()),
            ],
        },
        value: Value::Int(1),
    };
    assert_eq!(classify(&kv), Class::Invalid("vstamps:1,var".to_string()));
}

#[test]
fn test_classify_two_vstamps_invalid() {
    let kv = KeyValue {
        key: Key {
            directory: vec![],
            tuple: vec![TupElement::VStampFuture(VStampFuture { user_version: 0 })],
        },
        value: Value::VStampFuture(VStampFuture { user_version: 1 }),
    };
    assert_eq!(classify(&kv), Class::Invalid("vstamps:2".to_string()));
}

#[test]
fn test_classify_clear_and_variable_invalid() {
    let kv = KeyValue {
        key: Key {
            directory: vec![],
            tuple: vec![TupElement::Variable(Variable::any())],
        },
        value: Value::Clear,
    };
    assert_eq!(classify(&kv), Class::Invalid("var,clear".to_string()));
}

#[test]
fn test_classify_key_variable_wins_over_value_variable() {
    // Holes in both the key and the value still read as a range.
    let kv = KeyValue {
        key: Key {
            directory: vec![],
            tuple: vec![TupElement::Variable(Variable::any())],
        },
        value: Value::Variable(Variable::any()),
    };
    assert_eq!(classify(&kv), Class::ReadRange);
}

#[test]
fn test_classify_empty_key_value_is_constant() {
    let kv = KeyValue {
        key: Key {
            directory: vec![],
            tuple: vec![],
        },
        value: Value::Nil,
    };
    assert_eq!(classify(&kv), Class::Constant);
}

#[test]
fn test_class_text() {
    assert_eq!(Class::Constant.text(), "constant");
    assert_eq!(Class::VStampKey.text(), "vstampkey");
    assert_eq!(Class::VStampVal.text(), "vstampval");
    assert_eq!(Class::Clear.text(), "clear");
    assert_eq!(Class::ReadSingle.text(), "single");
    assert_eq!(Class::ReadRange.text(), "range");
    assert_eq!(Class::Invalid("var".to_string()).text(), "invalid[var]");
}
