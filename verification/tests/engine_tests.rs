use std::cell::{Cell, RefCell};
use std::collections::BTreeMap;
use std::rc::Rc;

use fql::convert::{from_fdb_tuple, to_fdb_tuple};
use fql::engine::{classify_query, Endianness, Engine, EngineConfig, EngineError, QueryClass};
use fql::facade::{Database, FacadeError, Transaction};
use fql::keyval::{DirElement, Key, KeyValue, Query, TupElement, Value, ValueType, Variable,
    VStampFuture};

/// An in-memory driver: an ordered map behind the facade traits.
struct MockDb {
    store: Rc<RefCell<BTreeMap<Vec<u8>, Vec<u8>>>>,
    transactions_opened: Cell<usize>,
}

struct MockTx {
    store: Rc<RefCell<BTreeMap<Vec<u8>, Vec<u8>>>>,
}

impl MockDb {
    fn new() -> Self {
        MockDb {
            store: Rc::new(RefCell::new(BTreeMap::new())),
            transactions_opened: Cell::new(0),
        }
    }
}

impl Transaction for MockTx {
    fn get(&self, key: &[u8]) -> Result<Option<Vec<u8>>, FacadeError> {
        Ok(self.store.borrow().get(key).cloned())
    }

    fn set(&self, key: &[u8], value: &[u8]) -> Result<(), FacadeError> {
        self.store.borrow_mut().insert(key.to_vec(), value.to_vec());
        Ok(())
    }

    fn clear(&self, key: &[u8]) -> Result<(), FacadeError> {
        self.store.borrow_mut().remove(key);
        Ok(())
    }

    fn get_range(&self, begin: &[u8], end: &[u8]) -> Result<Vec<(Vec<u8>, Vec<u8>)>, FacadeError> {
        Ok(self
            .store
            .borrow()
            .range(begin.to_vec()..end.to_vec())
            .map(|(k, v)| (k.clone(), v.clone()))
            .collect())
    }

    fn set_versionstamped_key(&self, _template: &[u8], _stamp_offset: u32) -> Result<(), FacadeError> {
        Ok(())
    }

    fn set_versionstamped_value(&self, _template: &[u8], _stamp_offset: u32) -> Result<(), FacadeError> {
        Ok(())
    }
}

impl Database for MockDb {
    type Transaction = MockTx;

    fn create_transaction(&self) -> Result<MockTx, FacadeError> {
        self.transactions_opened.set(self.transactions_opened.get() + 1);
        Ok(MockTx { store: Rc::clone(&self.store) })
    }
}

fn keyvalue(tuple: Vec<TupElement>, value: Value) -> KeyValue {
    KeyValue {
        key: Key {
            directory: vec![DirElement::String("users".to_string())],
            tuple,
        },
        value,
    }
}

#[test]
fn test_placeholder_conversions() {
    // These are placeholder tests
    let tuple = vec![TupElement::Int(42)];
    let result = to_fdb_tuple(&tuple);
    assert!(result.is_ok());

    let result = from_fdb_tuple(&[]);
    assert!(result.is_ok());
}

#[test]
fn test_engine_config_default() {
    let config = EngineConfig::default();
    assert_eq!(config.endianness, Endianness::Big);
}

#[test]
fn test_classify_query_classes() {
    let kv = |value: Value| Query::KeyValue(keyvalue(vec![TupElement::Int(1)], value));
    assert_eq!(classify_query(&kv(Value::Int(2))), QueryClass::Write);
    assert_eq!(classify_query(&kv(Value::Clear)), QueryClass::Clear);
    assert_eq!(
        classify_query(&kv(Value::Variable(Variable::any()))),
        QueryClass::ReadSingle
    );
    assert_eq!(
        classify_query(&kv(Value::VStampFuture(VStampFuture { user_version: 0 }))),
        QueryClass::Write
    );
    assert_eq!(
        classify_query(&Query::Directory(vec![DirElement::String("d".to_string())])),
        QueryClass::Directories
    );
}

#[test]
fn test_classify_query_key_reads() {
    // A key-only query reads: single when the key is concrete, range when
    // it holds a hole.
    let concrete = Query::Key(Key {
        directory: vec![],
        tuple: vec![TupElement::Int(1)],
    });
    assert_eq!(classify_query(&concrete), QueryClass::ReadSingle);

    let with_hole = Query::Key(Key {
        directory: vec![],
        tuple: vec![TupElement::Int(1), TupElement::MaybeMore],
    });
    assert_eq!(classify_query(&with_hole), QueryClass::ReadRange);
}

#[test]
fn test_classify_query_corresponds_to_classifier() {
    // A hole in the key makes a range read even when the value is concrete.
    let q = Query::KeyValue(keyvalue(
        vec![TupElement::Variable(Variable::any())],
        Value::Int(1),
    ));
    assert_eq!(classify_query(&q), QueryClass::ReadRange);

    let invalid = Query::KeyValue(keyvalue(
        vec![TupElement::VStampFuture(VStampFuture { user_version: 0 })],
        Value::VStampFuture(VStampFuture { user_version: 1 }),
    ));
    assert_eq!(classify_query(&invalid), QueryClass::Invalid);
}

#[test]
fn test_execute_write_echoes_pair() {
    let engine = Engine::new(EngineConfig::default());
    let db = MockDb::new();
    let kv = keyvalue(vec![TupElement::Int(1)], Value::String("alice".to_string()));
    let results = engine.execute(&db, &Query::KeyValue(kv.clone())).unwrap();
    assert_eq!(results, vec![kv]);
    // The packed value bytes reached the store.
    let stored = db.store.borrow().values().next().cloned();
    assert_eq!(stored, Some(b"alice".to_vec()));
}

#[test]
fn test_execute_write_then_read_single() {
    let engine = Engine::new(EngineConfig::default());
    let db = MockDb::new();
    let write = keyvalue(vec![TupElement::Int(1)], Value::String("alice".to_string()));
    engine.execute(&db, &Query::KeyValue(write)).unwrap();

    let read = keyvalue(
        vec![TupElement::Int(1)],
        Value::Variable(Variable::with_types(vec![ValueType::String])),
    );
    let results = engine.execute(&db, &Query::KeyValue(read.clone())).unwrap();
    assert_eq!(results.len(), 1);
    assert_eq!(results[0].value, Value::String("alice".to_string()));
    assert_eq!(results[0].key, read.key);
}

#[test]
fn test_execute_clear_keyvalue_shape() {
    // A key-value whose value is the clear marker clears the key.
    let engine = Engine::new(EngineConfig::default());
    let db = MockDb::new();
    let write = keyvalue(vec![TupElement::Int(42)], Value::Uint(7));
    engine.execute(&db, &Query::KeyValue(write)).unwrap();
    assert_eq!(db.store.borrow().len(), 1);

    let clear = keyvalue(vec![TupElement::Int(42)], Value::Clear);
    let results = engine.execute(&db, &Query::KeyValue(clear)).unwrap();
    assert_eq!(results, vec![]);
    assert_eq!(db.store.borrow().len(), 0);

    let read = keyvalue(vec![TupElement::Int(42)], Value::Variable(Variable::any()));
    assert_eq!(engine.execute(&db, &Query::KeyValue(read)).unwrap(), vec![]);
}

#[test]
fn test_execute_key_query_reads() {
    let engine = Engine::new(EngineConfig::default());
    let db = MockDb::new();
    let key = Key {
        directory: vec![DirElement::String("users".to_string())],
        tuple: vec![TupElement::Int(1)],
    };
    // Nothing stored: no pairs.
    assert_eq!(engine.execute(&db, &Query::Key(key.clone())).unwrap(), vec![]);

    // After a write, the key-only query reads the raw bytes back (its
    // implied variable is unconstrained, so the value comes back as bytes).
    let write = KeyValue { key: key.clone(), value: Value::Bytes(vec![1, 2, 3]) };
    engine.execute(&db, &Query::KeyValue(write)).unwrap();
    let results = engine.execute(&db, &Query::Key(key)).unwrap();
    assert_eq!(results.len(), 1);
    assert_eq!(results[0].value, Value::Bytes(vec![1, 2, 3]));
}

#[test]
fn test_execute_invalid_rejected_before_any_io() {
    let engine = Engine::new(EngineConfig::default());
    let db = MockDb::new();
    let invalid = keyvalue(
        vec![TupElement::VStampFuture(VStampFuture { user_version: 0 })],
        Value::VStampFuture(VStampFuture { user_version: 1 }),
    );
    match engine.execute(&db, &Query::KeyValue(invalid)) {
        Err(EngineError::InvalidQuery(msg)) => assert_eq!(msg, "vstamps:2"),
        other => panic!("expected InvalidQuery, got {:?}", other),
    }
    // Rejected before any driver work: no transaction was even opened.
    assert_eq!(db.transactions_opened.get(), 0);
    assert_eq!(db.store.borrow().len(), 0);
}

#[test]
fn test_execute_vstamp_and_variable_rejected() {
    let engine = Engine::new(EngineConfig::default());
    let db = MockDb::new();
    let invalid = Query::KeyValue(KeyValue {
        key: Key {
            directory: vec![],
            tuple: vec![
                TupElement::VStampFuture(VStampFuture { user_version: 0 }),
                TupElement::Variable(Variable::any()),
            ],
        },
        value: Value::Int(1),
    });
    match engine.execute(&db, &invalid) {
        Err(EngineError::InvalidQuery(msg)) => assert_eq!(msg, "vstamps:1,var"),
        other => panic!("expected InvalidQuery, got {:?}", other),
    }
    assert_eq!(db.transactions_opened.get(), 0);
}

#[test]
fn test_execute_range_read() {
    let engine = Engine::new(EngineConfig::default());
    let db = MockDb::new();
    let write = KeyValue {
        key: Key { directory: vec![], tuple: vec![] },
        value: Value::Bytes(vec![9, 9]),
    };
    engine.execute(&db, &Query::KeyValue(write)).unwrap();

    // The placeholder tuple layer packs every key to the empty byte string
    // and unpacks it to the empty tuple, so a bare tail wildcard matches
    // the stored pair while any concrete prefix does not.
    let open_schema = KeyValue {
        key: Key { directory: vec![], tuple: vec![TupElement::MaybeMore] },
        value: Value::Variable(Variable::any()),
    };
    let results = engine.execute(&db, &Query::KeyValue(open_schema)).unwrap();
    assert_eq!(results.len(), 1);
    assert_eq!(results[0].value, Value::Bytes(vec![9, 9]));
    assert_eq!(results[0].key.tuple, vec![]);

    let prefixed_schema = KeyValue {
        key: Key {
            directory: vec![],
            tuple: vec![TupElement::Int(42), TupElement::MaybeMore],
        },
        value: Value::Variable(Variable::any()),
    };
    assert_eq!(
        engine.execute(&db, &Query::KeyValue(prefixed_schema)).unwrap(),
        vec![]
    );
}

#[test]
fn test_execute_vstamp_writes() {
    let engine = Engine::new(EngineConfig::default());
    let db = MockDb::new();
    let key_stamp = keyvalue(
        vec![TupElement::VStampFuture(VStampFuture { user_version: 0 })],
        Value::Int(42),
    );
    let results = engine.execute(&db, &Query::KeyValue(key_stamp.clone())).unwrap();
    assert_eq!(results, vec![key_stamp]);

    let val_stamp = keyvalue(
        vec![TupElement::Int(42)],
        Value::VStampFuture(VStampFuture { user_version: 0 }),
    );
    let results = engine.execute(&db, &Query::KeyValue(val_stamp.clone())).unwrap();
    assert_eq!(results, vec![val_stamp]);
}

#[test]
fn test_execute_directory_lists_nothing() {
    let engine = Engine::new(EngineConfig::default());
    let db = MockDb::new();
    let query = Query::Directory(vec![DirElement::String("users".to_string())]);
    assert_eq!(engine.execute(&db, &query).unwrap(), vec![]);
}

#[test]
fn test_single_read_result_interprets_bytes() {
    let engine = Engine::new(EngineConfig::default());
    let kv = keyvalue(
        vec![TupElement::Int(1)],
        Value::Variable(Variable::with_types(vec![ValueType::Uint])),
    );
    // Nothing fetched: nothing found.
    assert_eq!(engine.single_read_result(&kv, None).unwrap(), None);

    // Eight big-endian bytes unpack under the declared type.
    let fetched = vec![0, 0, 0, 0, 0, 0, 0, 42];
    let found = engine.single_read_result(&kv, Some(fetched)).unwrap().unwrap();
    assert_eq!(found.value, Value::Uint(42));
    assert_eq!(found.key, kv.key);

    // Bytes of the wrong length surface the codec's error, wrapped.
    match engine.single_read_result(&kv, Some(vec![1, 2, 3])) {
        Err(EngineError::ExecutionFailed(msg)) => {
            assert_eq!(msg, "Invalid data length: expected 8, got 3");
        }
        other => panic!("expected ExecutionFailed, got {:?}", other),
    }
}

#[test]
fn test_range_read_results_filters_with_matcher() {
    let engine = Engine::new(EngineConfig::default());
    let open_schema = KeyValue {
        key: Key { directory: vec![], tuple: vec![TupElement::MaybeMore] },
        value: Value::Variable(Variable::any()),
    };
    let pairs = vec![
        (vec![], b"one".to_vec()),
        (vec![1], b"two".to_vec()),
    ];
    let results = engine.range_read_results(&open_schema, pairs).unwrap();
    assert_eq!(results.len(), 2);
    assert_eq!(results[0].value, Value::Bytes(b"one".to_vec()));
    assert_eq!(results[1].value, Value::Bytes(b"two".to_vec()));

    let closed_schema = KeyValue {
        key: Key { directory: vec![], tuple: vec![TupElement::Int(1)] },
        value: Value::Variable(Variable::any()),
    };
    let pairs = vec![(vec![], b"one".to_vec())];
    assert_eq!(engine.range_read_results(&closed_schema, pairs).unwrap(), vec![]);
}

#[test]
fn test_engine_primitives_against_mock() {
    let engine = Engine::new(EngineConfig::default());
    let db = MockDb::new();
    let tx = db.create_transaction().unwrap();
    let kv = keyvalue(vec![TupElement::Int(1)], Value::Uint(5));

    assert!(engine.set(&tx, &kv).is_ok());
    assert_eq!(db.store.borrow().len(), 1);

    let read = keyvalue(
        vec![TupElement::Int(1)],
        Value::Variable(Variable::with_types(vec![ValueType::Uint])),
    );
    let found = engine.read_single(&tx, &read).unwrap().unwrap();
    assert_eq!(found.value, Value::Uint(5));

    assert!(engine.clear(&tx, &kv.key).is_ok());
    assert_eq!(db.store.borrow().len(), 0);
    assert_eq!(engine.read_single(&tx, &read).unwrap(), None);

    let range = KeyValue {
        key: Key { directory: vec![], tuple: vec![TupElement::MaybeMore] },
        value: Value::Variable(Variable::any()),
    };
    assert_eq!(engine.read_range(&tx, &range).unwrap(), vec![]);
    assert_eq!(engine.directories(&kv.key.directory).unwrap(), Vec::<Vec<DirElement>>::new());
}

#[test]
fn test_write_payload_bytes() {
    let engine = Engine::new(EngineConfig::default());
    let kv = keyvalue(vec![TupElement::Int(1)], Value::Int(0x0102030405060708));
    let (key_bytes, value_bytes) = engine.write_payload(&kv).unwrap();
    // The placeholder tuple layer packs every key to nothing; the value
    // packs big-endian under the default configuration.
    assert_eq!(key_bytes, Vec::<u8>::new());
    assert_eq!(value_bytes, vec![1, 2, 3, 4, 5, 6, 7, 8]);

    let little = Engine::new(EngineConfig { endianness: Endianness::Little });
    let (_, value_bytes) = little.write_payload(&kv).unwrap();
    assert_eq!(value_bytes, vec![8, 7, 6, 5, 4, 3, 2, 1]);

    match engine.write_payload(&keyvalue(vec![], Value::Variable(Variable::any()))) {
        Err(EngineError::ExecutionFailed(msg)) => assert_eq!(msg, "Cannot serialize Variable"),
        other => panic!("expected ExecutionFailed, got {:?}", other),
    }
}

#[test]
fn test_set_refuses_unserializable_value() {
    let engine = Engine::new(EngineConfig::default());
    let db = MockDb::new();
    let tx = db.create_transaction().unwrap();
    let kv = keyvalue(vec![TupElement::Int(1)], Value::Clear);
    match engine.set(&tx, &kv) {
        Err(EngineError::ExecutionFailed(msg)) => assert_eq!(msg, "Cannot serialize Clear"),
        other => panic!("expected ExecutionFailed, got {:?}", other),
    }
    assert_eq!(db.store.borrow().len(), 0);
}
