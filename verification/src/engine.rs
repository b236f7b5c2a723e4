//! The query execution engine.
//!
//! The engine dispatches a query on the class the classifier assigns: an invalid
//! query is rejected before any driver work, a write packs the pair and
//! hands the bytes to the driver, a clear hands over the packed key, and
//! reads fetch raw pairs from the driver and interpret them with the codec
//! and the matcher. The driver is reached through the `facade` traits and
//! promises nothing, so every contract here states what holds of the result
//! whatever the driver returned; the tuple layer (key packing) remains an
//! external collaborator, stood in for by the `convert` placeholders.

use vstd::prelude::*;

use crate::class::{classify, spec_classify, Class, ClassModel};
use crate::convert::{to_fdb_tuple, from_fdb_tuple};
use crate::facade::{Database, FacadeError, Transaction};
use crate::keyval::{
    Query, KeyValue, Key, Value, Variable, ValueType, Directory, QueryModel, KeyValueModel,
    KeyModel, ValueModel, ElementModel, query_model, key_value_model, key_model, value_model,
    tuple_model, copy_directory,
};
use crate::tuple::{compare, spec_compare};
use crate::values::{
    pack, unpack, spec_pack, spec_unpack, serialization_error_text, ErrorModel,
};

verus! {

/// An error of the engine.
#[derive(Debug, Clone, PartialEq, Eq)]
pub enum EngineError {
    /// A pure-module error surfaced during execution.
    ExecutionFailed(String),
    /// The storage driver failed.
    DatabaseError(String),
    /// The query is invalid; its reason names the attributes that clash.
    InvalidQuery(String),
}

/// Model of an engine error.
#[verifier::ext_equal]
pub enum EngineErrorModel {
    ExecutionFailed(Seq<char>),
    DatabaseError(Seq<char>),
    InvalidQuery(Seq<char>),
}

pub open spec fn engine_error_model(e: EngineError) -> EngineErrorModel {
    match e {
        EngineError::ExecutionFailed(s) => EngineErrorModel::ExecutionFailed(s@),
        EngineError::DatabaseError(s) => EngineErrorModel::DatabaseError(s@),
        EngineError::InvalidQuery(s) => EngineErrorModel::InvalidQuery(s@),
    }
}

/// A codec error wrapped as an engine error.
pub open spec fn wrap_codec_error(e: ErrorModel) -> EngineErrorModel {
    EngineErrorModel::ExecutionFailed(serialization_error_text(e))
}

/// Endianness of numeric value serialization.
#[derive(Debug, Clone, Copy, PartialEq, Eq, Structural)]
pub enum Endianness {
    Big,
    Little,
}

/// The codec's byte order for an engine byte order.
pub open spec fn codec_endianness(e: Endianness) -> crate::values::Endianness {
    match e {
        Endianness::Big => crate::values::Endianness::Big,
        Endianness::Little => crate::values::Endianness::Little,
    }
}

fn to_codec_endianness(e: Endianness) -> (r: crate::values::Endianness)
    ensures
        r == codec_endianness(e),
{
    match e {
        Endianness::Big => crate::values::Endianness::Big,
        Endianness::Little => crate::values::Endianness::Little,
    }
}

/// Configuration for the engine. The sole recognized option is the
/// endianness of numeric value serialization.
#[derive(Debug, Clone)]
pub struct EngineConfig {
    /// Endianness for numeric value serialization
    pub endianness: Endianness,
}

impl Default for EngineConfig {
    /// The default configuration packs numeric values big-endian.
    fn default() -> (r: Self)
        ensures
            r.endianness == Endianness::Big,
    {
        Self { endianness: Endianness::Big }
    }
}

/// The coarse operation class the engine dispatches on: the classifier's own
/// class with the three write classes folded into `Write`, plus the
/// out-of-band directory listing.
#[derive(Debug, Clone, Copy, PartialEq, Eq, Structural)]
pub enum QueryClass {
    Write,
    Clear,
    ReadSingle,
    ReadRange,
    Directories,
    Invalid,
}

/// A key-only query read as a key-value whose value is an unconstrained
/// variable.
pub open spec fn wrap_key(k: KeyModel) -> KeyValueModel {
    KeyValueModel { key: k, value: ValueModel::Variable(Seq::empty()) }
}

/// The coarse class of a classification: every concrete shape writes,
/// whether or not a commit-time versionstamp is involved.
pub open spec fn coarse_class(c: ClassModel) -> QueryClass {
    match c {
        ClassModel::Constant => QueryClass::Write,
        ClassModel::VStampKey => QueryClass::Write,
        ClassModel::VStampVal => QueryClass::Write,
        ClassModel::Clear => QueryClass::Clear,
        ClassModel::ReadSingle => QueryClass::ReadSingle,
        ClassModel::ReadRange => QueryClass::ReadRange,
        ClassModel::Invalid(_) => QueryClass::Invalid,
    }
}

/// The coarse class of a query: a key-value takes the classifier's own class;
/// a key-only query is read as a key-value with an unconstrained variable
/// value, so it always reads (or is invalid); a directory query is the
/// out-of-band listing.
pub open spec fn spec_classify_query(q: QueryModel) -> QueryClass {
    match q {
        QueryModel::KeyValue(kv) => coarse_class(spec_classify(kv)),
        QueryModel::Key(k) => coarse_class(spec_classify(wrap_key(k))),
        QueryModel::Directory(_) => QueryClass::Directories,
    }
}

fn coarse_of(c: Class) -> (r: QueryClass)
    ensures
        r == coarse_class(crate::class::class_model(c)),
{
    match c {
        Class::Constant => QueryClass::Write,
        Class::VStampKey => QueryClass::Write,
        Class::VStampVal => QueryClass::Write,
        Class::Clear => QueryClass::Clear,
        Class::ReadSingle => QueryClass::ReadSingle,
        Class::ReadRange => QueryClass::ReadRange,
        Class::Invalid(_) => QueryClass::Invalid,
    }
}

/// Classify a query into the engine's coarse operation classes.
pub fn classify_query(query: &Query) -> (r: QueryClass)
    ensures
        r == spec_classify_query(query_model(*query)),
{
    match query {
        Query::KeyValue(kv) => coarse_of(classify(kv)),
        Query::Key(k) => {
            let wrapped = KeyValue { key: k.clone(), value: Value::Variable(Variable::any()) };
            proof {
                assert(key_value_model(wrapped) =~~= wrap_key(key_model(*k)));
            }
            coarse_of(classify(&wrapped))
        },
        Query::Directory(_) => QueryClass::Directories,
    }
}

/// The declared type under which a read's raw bytes are unpacked: the first
/// of the value variable's type constraints, or raw bytes when the variable
/// is unconstrained or the value is no variable at all.
pub open spec fn declared_value_type(v: ValueModel) -> ValueType {
    match v {
        ValueModel::Variable(types) => {
            if types.len() == 0 {
                ValueType::Any
            } else {
                types[0]
            }
        },
        _ => ValueType::Any,
    }
}

fn declared_type_of(v: &Value) -> (r: ValueType)
    ensures
        r == declared_value_type(value_model(*v)),
{
    match v {
        Value::Variable(var) => {
            if var.types.len() == 0 {
                ValueType::Any
            } else {
                var.types[0]
            }
        },
        _ => ValueType::Any,
    }
}

/// What interpreting a point read's outcome yields: nothing when the store
/// held nothing; otherwise the queried key paired with the fetched bytes
/// unpacked under the declared type, or the codec's error wrapped.
pub open spec fn spec_single_read(
    kv: KeyValueModel,
    fetched: Option<Seq<u8>>,
    e: crate::values::Endianness,
) -> Result<Option<KeyValueModel>, EngineErrorModel> {
    match fetched {
        None => Ok(None),
        Some(bytes) => {
            match spec_unpack(bytes, declared_value_type(kv.value), e) {
                Ok(vm) => Ok(Some(KeyValueModel { key: kv.key, value: vm })),
                Err(em) => Err(wrap_codec_error(em)),
            }
        },
    }
}

/// The model of a fetched byte payload.
pub open spec fn fetched_model(o: Option<Vec<u8>>) -> Option<Seq<u8>> {
    match o {
        None => None,
        Some(v) => Some(v@),
    }
}

/// The model of a point-read result.
pub open spec fn single_result_model(r: Result<Option<KeyValue>, EngineError>) -> Result<
    Option<KeyValueModel>,
    EngineErrorModel,
> {
    match r {
        Ok(None) => Ok(None),
        Ok(Some(kv)) => Ok(Some(key_value_model(kv))),
        Err(e) => Err(engine_error_model(e)),
    }
}

/// What interpreting one raw range pair yields: the pair's key tuple comes
/// back through the tuple layer (here the placeholder, which yields the
/// empty tuple), its value unpacks under the declared type, and the matcher
/// keeps the pair only when the candidate tuple satisfies the schema.
pub open spec fn spec_range_pair(
    kv: KeyValueModel,
    pair: (Seq<u8>, Seq<u8>),
    e: crate::values::Endianness,
) -> Result<Option<KeyValueModel>, EngineErrorModel> {
    let candidate = Seq::<ElementModel>::empty();
    match spec_unpack(pair.1, declared_value_type(kv.value), e) {
        Err(em) => Err(wrap_codec_error(em)),
        Ok(vm) => {
            if spec_compare(kv.key.tuple, candidate) is None {
                Ok(
                    Some(
                        KeyValueModel {
                            key: KeyModel { directory: kv.key.directory, tuple: candidate },
                            value: vm,
                        },
                    ),
                )
            } else {
                Ok(None)
            }
        },
    }
}

/// What interpreting a range read's raw pairs yields: each pair in order,
/// kept when it matches the schema, with the first codec error aborting the
/// read.
pub open spec fn spec_range_results(
    kv: KeyValueModel,
    pairs: Seq<(Seq<u8>, Seq<u8>)>,
    e: crate::values::Endianness,
) -> Result<Seq<KeyValueModel>, EngineErrorModel>
    decreases pairs.len(),
{
    if pairs.len() == 0 {
        Ok(Seq::empty())
    } else {
        match spec_range_results(kv, pairs.drop_last(), e) {
            Err(em) => Err(em),
            Ok(acc) => {
                match spec_range_pair(kv, pairs.last(), e) {
                    Err(em) => Err(em),
                    Ok(None) => Ok(acc),
                    Ok(Some(m)) => Ok(acc.push(m)),
                }
            },
        }
    }
}

/// The model of a sequence of raw pairs.
pub open spec fn pairs_model(s: Seq<(Vec<u8>, Vec<u8>)>) -> Seq<(Seq<u8>, Seq<u8>)> {
    s.map_values(|p: (Vec<u8>, Vec<u8>)| (p.0@, p.1@))
}

/// The model of an execution result.
pub open spec fn execute_result_model(r: Result<Vec<KeyValue>, EngineError>) -> Result<
    Seq<KeyValueModel>,
    EngineErrorModel,
> {
    match r {
        Ok(v) => Ok(v@.map_values(|kv: KeyValue| key_value_model(kv))),
        Err(e) => Err(engine_error_model(e)),
    }
}

/// Whether a result is a driver failure. The driver promises nothing, so
/// its errors may carry any message.
pub open spec fn is_driver_error(r: Result<Seq<KeyValueModel>, EngineErrorModel>) -> bool {
    r matches Err(e) && e is DatabaseError
}

/// A point-read outcome lifted to the shape execution results take.
pub open spec fn single_dispatch_result(
    kv: KeyValueModel,
    fetched: Option<Seq<u8>>,
    e: crate::values::Endianness,
) -> Result<Seq<KeyValueModel>, EngineErrorModel> {
    match spec_single_read(kv, fetched, e) {
        Ok(None) => Ok(Seq::empty()),
        Ok(Some(m)) => Ok(seq![m]),
        Err(em) => Err(em),
    }
}

/// What dispatching a key-value query yields. An invalid query is rejected
/// with its reason, before any driver work. A write returns the written
/// pair, a clear returns no pairs, and a read returns the verified
/// interpretation of whatever raw data the driver handed back; a codec
/// refusal surfaces wrapped, and any operation that reaches the driver may
/// instead surface the driver's own failure.
pub open spec fn dispatch_post(
    kv: KeyValueModel,
    e: crate::values::Endianness,
    r: Result<Seq<KeyValueModel>, EngineErrorModel>,
) -> bool {
    match spec_classify(kv) {
        ClassModel::Invalid(m) => r == Err::<Seq<KeyValueModel>, EngineErrorModel>(
            EngineErrorModel::InvalidQuery(m),
        ),
        ClassModel::Constant => {
            match spec_pack(kv.value, e, false) {
                Err(em) => r == Err::<Seq<KeyValueModel>, EngineErrorModel>(wrap_codec_error(em))
                    || is_driver_error(r),
                Ok(_) => r == Ok::<Seq<KeyValueModel>, EngineErrorModel>(seq![kv])
                    || is_driver_error(r),
            }
        },
        ClassModel::VStampKey => r == Ok::<Seq<KeyValueModel>, EngineErrorModel>(seq![kv])
            || is_driver_error(r),
        ClassModel::VStampVal => {
            match spec_pack(kv.value, e, true) {
                Err(em) => r == Err::<Seq<KeyValueModel>, EngineErrorModel>(wrap_codec_error(em))
                    || is_driver_error(r),
                Ok(_) => r == Ok::<Seq<KeyValueModel>, EngineErrorModel>(seq![kv])
                    || is_driver_error(r),
            }
        },
        ClassModel::Clear => r == Ok::<Seq<KeyValueModel>, EngineErrorModel>(Seq::empty())
            || is_driver_error(r),
        ClassModel::ReadSingle => (exists|fetched: Option<Seq<u8>>|
            r == single_dispatch_result(kv, fetched, e)) || is_driver_error(r),
        ClassModel::ReadRange => (exists|pairs: Seq<(Seq<u8>, Seq<u8>)>|
            r == spec_range_results(kv, pairs, e)) || is_driver_error(r),
    }
}

/// The query execution engine.
pub struct Engine {
    config: EngineConfig,
}

impl Engine {
    /// The engine's configuration.
    pub closed spec fn spec_config(&self) -> EngineConfig {
        self.config
    }

    pub fn new(config: EngineConfig) -> (r: Self)
        ensures
            r.spec_config() == config,
    {
        Self { config }
    }

    /// The bytes a write hands to the driver: the tuple layer's packing of
    /// the key (here the placeholder, which packs to nothing) and the
    /// codec's packing of the value under the configured endianness. A
    /// value the codec refuses surfaces wrapped, before any driver work.
    pub fn write_payload(&self, kv: &KeyValue) -> (r: Result<(Vec<u8>, Vec<u8>), EngineError>)
        ensures
            match spec_pack(
                value_model(kv.value),
                codec_endianness(self.spec_config().endianness),
                false,
            ) {
                Ok(bytes) => r matches Ok(p) && p.0@ == Seq::<u8>::empty() && p.1@ == bytes,
                Err(em) => r matches Err(e) && engine_error_model(e) == wrap_codec_error(em),
            },
    {
        let value_bytes = match pack(
            &kv.value,
            to_codec_endianness(self.config.endianness),
            false,
        ) {
            Ok(b) => b,
            Err(e) => {
                return Err(EngineError::ExecutionFailed(e.text()));
            },
        };
        let key_bytes = match to_fdb_tuple(&kv.key.tuple) {
            Ok(b) => b,
            Err(m) => {
                return Err(EngineError::ExecutionFailed(m));
            },
        };
        Ok((key_bytes, value_bytes))
    }

    /// Execute a set query: pack the pair with `write_payload` and hand
    /// exactly those bytes to the driver's set.
    pub fn set<T: Transaction>(&self, tx: &T, kv: &KeyValue) -> (r: Result<(), EngineError>)
        ensures
            spec_pack(
                value_model(kv.value),
                codec_endianness(self.spec_config().endianness),
                false,
            ) matches Err(em) ==> r matches Err(e) && engine_error_model(e) == wrap_codec_error(
                em,
            ),
            spec_pack(
                value_model(kv.value),
                codec_endianness(self.spec_config().endianness),
                false,
            ) is Ok ==> (r is Ok || (r matches Err(e) && e is DatabaseError)),
    {
        let (key_bytes, value_bytes) = match self.write_payload(kv) {
            Ok(p) => p,
            Err(e) => {
                return Err(e);
            },
        };
        match tx.set(key_bytes.as_slice(), value_bytes.as_slice()) {
            Ok(_) => Ok(()),
            Err(FacadeError::TransactionError(m)) => Err(EngineError::DatabaseError(m)),
        }
    }

    /// Execute a clear query: hand the tuple layer's packing of the key to
    /// the driver's clear.
    pub fn clear<T: Transaction>(&self, tx: &T, key: &Key) -> (r: Result<(), EngineError>)
        ensures
            r is Ok || (r matches Err(e) && e is DatabaseError),
    {
        let key_bytes = match to_fdb_tuple(&key.tuple) {
            Ok(b) => b,
            Err(m) => {
                return Err(EngineError::ExecutionFailed(m));
            },
        };
        match tx.clear(key_bytes.as_slice()) {
            Ok(_) => Ok(()),
            Err(FacadeError::TransactionError(m)) => Err(EngineError::DatabaseError(m)),
        }
    }

    /// Interpret a point read's outcome: nothing when the store held
    /// nothing, otherwise the queried key paired with the fetched bytes
    /// unpacked under the type declared by the value's variable.
    pub fn single_read_result(&self, kv: &KeyValue, fetched: Option<Vec<u8>>) -> (r: Result<
        Option<KeyValue>,
        EngineError,
    >)
        ensures
            single_result_model(r) == spec_single_read(
                key_value_model(*kv),
                fetched_model(fetched),
                codec_endianness(self.spec_config().endianness),
            ),
    {
        match fetched {
            None => Ok(None),
            Some(bytes) => {
                match unpack(
                    bytes.as_slice(),
                    declared_type_of(&kv.value),
                    to_codec_endianness(self.config.endianness),
                ) {
                    Ok(v) => Ok(Some(KeyValue { key: kv.key.clone(), value: v })),
                    Err(e) => Err(EngineError::ExecutionFailed(e.text())),
                }
            },
        }
    }

    /// Execute a single read: fetch the packed key's bytes from the driver
    /// and interpret them with `single_read_result`. Whatever the driver
    /// returned, the result is the verified interpretation of some fetch
    /// outcome, or the driver's own failure.
    pub fn read_single<T: Transaction>(&self, tx: &T, kv: &KeyValue) -> (r: Result<
        Option<KeyValue>,
        EngineError,
    >)
        ensures
            (exists|fetched: Option<Seq<u8>>|
                single_result_model(r) == spec_single_read(
                    key_value_model(*kv),
                    fetched,
                    codec_endianness(self.spec_config().endianness),
                )) || (r matches Err(e) && e is DatabaseError),
    {
        let key_bytes = match to_fdb_tuple(&kv.key.tuple) {
            Ok(b) => b,
            Err(m) => {
                return Err(EngineError::ExecutionFailed(m));
            },
        };
        match tx.get(key_bytes.as_slice()) {
            Ok(fetched) => {
                let ghost f = fetched_model(fetched);
                let r = self.single_read_result(kv, fetched);
                proof {
                    assert(single_result_model(r) == spec_single_read(
                        key_value_model(*kv),
                        f,
                        codec_endianness(self.spec_config().endianness),
                    ));
                }
                r
            },
            Err(FacadeError::TransactionError(m)) => Err(EngineError::DatabaseError(m)),
        }
    }

    /// Interpret a range read's raw pairs: each key tuple comes back
    /// through the tuple layer, each value unpacks under the declared type,
    /// and the matcher keeps exactly the pairs whose tuples satisfy the
    /// schema (the prefix scan may over-read).
    pub fn range_read_results(&self, kv: &KeyValue, pairs: Vec<(Vec<u8>, Vec<u8>)>) -> (r: Result<
        Vec<KeyValue>,
        EngineError,
    >)
        ensures
            execute_result_model(r) == spec_range_results(
                key_value_model(*kv),
                pairs_model(pairs@),
                codec_endianness(self.spec_config().endianness),
            ),
    {
        let ghost kvm = key_value_model(*kv);
        let ghost e = codec_endianness(self.spec_config().endianness);
        let mut results: Vec<KeyValue> = Vec::new();
        proof {
            assert(pairs_model(pairs@).subrange(0, 0) =~= Seq::<(Seq<u8>, Seq<u8>)>::empty());
            assert(results@.map_values(|x: KeyValue| key_value_model(x)) =~= Seq::<
                KeyValueModel,
            >::empty());
        }
        let mut i: usize = 0;
        while i < pairs.len()
            invariant
                i <= pairs.len(),
                kvm == key_value_model(*kv),
                e == codec_endianness(self.spec_config().endianness),
                spec_range_results(kvm, pairs_model(pairs@).subrange(0, i as int), e) == Ok::<
                    Seq<KeyValueModel>,
                    EngineErrorModel,
                >(results@.map_values(|x: KeyValue| key_value_model(x))),
            decreases pairs.len() - i,
        {
            let ghost prefix = pairs_model(pairs@).subrange(0, i as int);
            let candidate = match from_fdb_tuple(pairs[i].0.as_slice()) {
                Ok(t) => t,
                Err(m) => {
                    return Err(EngineError::ExecutionFailed(m));
                },
            };
            let value = match unpack(
                pairs[i].1.as_slice(),
                declared_type_of(&kv.value),
                to_codec_endianness(self.config.endianness),
            ) {
                Ok(v) => v,
                Err(er) => {
                    proof {
                        let whole = pairs_model(pairs@);
                        lemma_range_results_extend_err(kvm, whole, i as int, e);
                    }
                    return Err(EngineError::ExecutionFailed(er.text()));
                },
            };
            proof {
                assert(tuple_model(candidate@) =~= Seq::<ElementModel>::empty());
            }
            let ghost pre = results@;
            if compare(&kv.key.tuple, &candidate).is_none() {
                results.push(
                    KeyValue {
                        key: Key { directory: copy_directory(&kv.key.directory), tuple: candidate },
                        value,
                    },
                );
                proof {
                    assert(results@.drop_last() =~= pre);
                    assert(results@.map_values(|x: KeyValue| key_value_model(x)).drop_last() =~=
                        pre.map_values(|x: KeyValue| key_value_model(x)));
                }
            }
            proof {
                let whole = pairs_model(pairs@);
                let next = whole.subrange(0, i + 1);
                assert(next.drop_last() =~= prefix);
                assert(next.last() == whole[i as int]);
                assert(whole[i as int] == (pairs@[i as int].0@, pairs@[i as int].1@));
                assert(results@.map_values(|x: KeyValue| key_value_model(x)) =~=
                    spec_range_results(kvm, next, e)->Ok_0);
            }
            i = i + 1;
        }
        proof {
            assert(pairs_model(pairs@).subrange(0, pairs@.len() as int) =~= pairs_model(pairs@));
        }
        Ok(results)
    }

    /// Execute a range read: fetch the raw pairs of the schema's byte range
    /// from the driver and interpret them with `range_read_results`.
    /// Whatever the driver returned, the result is the verified
    /// interpretation of some sequence of raw pairs, or the driver's own
    /// failure.
    pub fn read_range<T: Transaction>(&self, tx: &T, kv: &KeyValue) -> (r: Result<
        Vec<KeyValue>,
        EngineError,
    >)
        ensures
            (exists|pairs: Seq<(Seq<u8>, Seq<u8>)>|
                execute_result_model(r) == spec_range_results(
                    key_value_model(*kv),
                    pairs,
                    codec_endianness(self.spec_config().endianness),
                )) || (r matches Err(e) && e is DatabaseError),
    {
        let begin = match to_fdb_tuple(&kv.key.tuple) {
            Ok(b) => b,
            Err(m) => {
                return Err(EngineError::ExecutionFailed(m));
            },
        };
        // With the placeholder tuple layer every key packs to the empty
        // byte string, so the scanned range is the whole keyspace below the
        // terminal byte; the matcher below drops what the scan over-read.
        let mut end: Vec<u8> = Vec::new();
        end.push(0xff);
        match tx.get_range(begin.as_slice(), end.as_slice()) {
            Ok(raw_pairs) => {
                let ghost p = pairs_model(raw_pairs@);
                let r = self.range_read_results(kv, raw_pairs);
                proof {
                    assert(execute_result_model(r) == spec_range_results(
                        key_value_model(*kv),
                        p,
                        codec_endianness(self.spec_config().endianness),
                    ));
                }
                r
            },
            Err(FacadeError::TransactionError(m)) => Err(EngineError::DatabaseError(m)),
        }
    }

    /// Execute a directory listing. The driver contract keeps its directory
    /// primitive opaque to the core and the facade exposes none, so the
    /// listing yields nothing until a driver-specific layer is wired in.
    pub fn directories(&self, dir: &Directory) -> (r: Result<Vec<Directory>, EngineError>)
        ensures
            r matches Ok(v) && v@.len() == 0,
    {
        Ok(Vec::new())
    }

    /// Dispatch one key-value query on its classification: reject an
    /// invalid query before any driver work, write, clear, or read through
    /// the driver transaction.
    pub fn execute_key_value<T: Transaction>(&self, tx: &T, kv: &KeyValue) -> (r: Result<
        Vec<KeyValue>,
        EngineError,
    >)
        ensures
            dispatch_post(
                key_value_model(*kv),
                codec_endianness(self.spec_config().endianness),
                execute_result_model(r),
            ),
    {
        let ghost kvm = key_value_model(*kv);
        let ghost e = codec_endianness(self.spec_config().endianness);
        match classify(kv) {
            Class::Invalid(msg) => Err(EngineError::InvalidQuery(msg)),
            Class::Constant => {
                match self.set(tx, kv) {
                    Ok(_) => {
                        let mut v: Vec<KeyValue> = Vec::new();
                        v.push(kv.clone());
                        proof {
                            assert(v@.map_values(|x: KeyValue| key_value_model(x)) =~= seq![kvm]);
                        }
                        Ok(v)
                    },
                    Err(er) => Err(er),
                }
            },
            Class::VStampKey => {
                // The future versionstamp sits in the key; the tuple layer
                // packs the key template and the store fills the stamp in
                // at commit time.
                let template = match to_fdb_tuple(&kv.key.tuple) {
                    Ok(b) => b,
                    Err(m) => {
                        return Err(EngineError::ExecutionFailed(m));
                    },
                };
                match tx.set_versionstamped_key(template.as_slice(), 0) {
                    Ok(_) => {
                        let mut v: Vec<KeyValue> = Vec::new();
                        v.push(kv.clone());
                        proof {
                            assert(v@.map_values(|x: KeyValue| key_value_model(x)) =~= seq![kvm]);
                        }
                        Ok(v)
                    },
                    Err(FacadeError::TransactionError(m)) => Err(EngineError::DatabaseError(m)),
                }
            },
            Class::VStampVal => {
                // The future versionstamp sits in the value: the packed
                // template begins with the ten bytes the store replaces.
                let template = match pack(
                    &kv.value,
                    to_codec_endianness(self.config.endianness),
                    true,
                ) {
                    Ok(b) => b,
                    Err(er) => {
                        return Err(EngineError::ExecutionFailed(er.text()));
                    },
                };
                match tx.set_versionstamped_value(template.as_slice(), 0) {
                    Ok(_) => {
                        let mut v: Vec<KeyValue> = Vec::new();
                        v.push(kv.clone());
                        proof {
                            assert(v@.map_values(|x: KeyValue| key_value_model(x)) =~= seq![kvm]);
                        }
                        Ok(v)
                    },
                    Err(FacadeError::TransactionError(m)) => Err(EngineError::DatabaseError(m)),
                }
            },
            Class::Clear => {
                match self.clear(tx, &kv.key) {
                    Ok(_) => {
                        let v: Vec<KeyValue> = Vec::new();
                        proof {
                            assert(v@.map_values(|x: KeyValue| key_value_model(x)) =~= Seq::<
                                KeyValueModel,
                            >::empty());
                        }
                        Ok(v)
                    },
                    Err(er) => Err(er),
                }
            },
            Class::ReadSingle => {
                let r = self.read_single(tx, kv);
                let ghost rm = single_result_model(r);
                proof {
                    if exists|fetched: Option<Seq<u8>>| rm == spec_single_read(kvm, fetched, e) {
                        lemma_single_dispatch(kvm, e, rm);
                    }
                }
                match r {
                    Ok(None) => {
                        let v: Vec<KeyValue> = Vec::new();
                        proof {
                            assert(v@.map_values(|x: KeyValue| key_value_model(x)) =~= Seq::<
                                KeyValueModel,
                            >::empty());
                        }
                        Ok(v)
                    },
                    Ok(Some(found)) => {
                        let ghost fm = key_value_model(found);
                        let mut v: Vec<KeyValue> = Vec::new();
                        v.push(found);
                        proof {
                            assert(v@.map_values(|x: KeyValue| key_value_model(x)) =~= seq![fm]);
                        }
                        Ok(v)
                    },
                    Err(er) => Err(er),
                }
            },
            Class::ReadRange => self.read_range(tx, kv),
        }
    }

    /// Execute a query: a directory query delegates to the listing, a
    /// key-only query reads as a key-value with an unconstrained variable
    /// value, and a key-value query opens one transaction and dispatches on
    /// the class the classifier assigns — after invalid queries are rejected, so no
    /// driver work happens for them.
    pub fn execute<D: Database>(&self, db: &D, query: &Query) -> (r: Result<
        Vec<KeyValue>,
        EngineError,
    >)
        ensures
            match query_model(*query) {
                QueryModel::Directory(_) => execute_result_model(r) == Ok::<
                    Seq<KeyValueModel>,
                    EngineErrorModel,
                >(Seq::empty()),
                QueryModel::Key(k) => dispatch_post(
                    wrap_key(k),
                    codec_endianness(self.spec_config().endianness),
                    execute_result_model(r),
                ),
                QueryModel::KeyValue(kvm) => dispatch_post(
                    kvm,
                    codec_endianness(self.spec_config().endianness),
                    execute_result_model(r),
                ),
            },
    {
        match query {
            Query::Directory(dir) => {
                match self.directories(dir) {
                    Ok(_) => {
                        let v: Vec<KeyValue> = Vec::new();
                        proof {
                            assert(v@.map_values(|x: KeyValue| key_value_model(x)) =~= Seq::<
                                KeyValueModel,
                            >::empty());
                        }
                        Ok(v)
                    },
                    Err(er) => Err(er),
                }
            },
            Query::Key(k) => {
                let wrapped = KeyValue { key: k.clone(), value: Value::Variable(Variable::any()) };
                proof {
                    assert(key_value_model(wrapped) =~~= wrap_key(key_model(*k)));
                }
                self.run_dispatch(db, &wrapped)
            },
            Query::KeyValue(kv) => self.run_dispatch(db, kv),
        }
    }

    /// Reject an invalid key-value before any driver work, then open one
    /// transaction and dispatch.
    fn run_dispatch<D: Database>(&self, db: &D, kv: &KeyValue) -> (r: Result<
        Vec<KeyValue>,
        EngineError,
    >)
        ensures
            dispatch_post(
                key_value_model(*kv),
                codec_endianness(self.spec_config().endianness),
                execute_result_model(r),
            ),
    {
        if let Class::Invalid(msg) = classify(kv) {
            return Err(EngineError::InvalidQuery(msg));
        }
        match db.create_transaction() {
            Ok(tx) => self.execute_key_value(&tx, kv),
            Err(FacadeError::TransactionError(m)) => Err(EngineError::DatabaseError(m)),
        }
    }
}

/// A point-read outcome known at the option shape is the same outcome at
/// the execution-result shape.
proof fn lemma_single_dispatch(
    kv: KeyValueModel,
    e: crate::values::Endianness,
    r: Result<Option<KeyValueModel>, EngineErrorModel>,
)
    requires
        exists|fetched: Option<Seq<u8>>| r == spec_single_read(kv, fetched, e),
    ensures
        match r {
            Ok(None) => exists|fetched: Option<Seq<u8>>|
                Ok::<Seq<KeyValueModel>, EngineErrorModel>(Seq::empty())
                    == single_dispatch_result(kv, fetched, e),
            Ok(Some(m)) => exists|fetched: Option<Seq<u8>>|
                Ok::<Seq<KeyValueModel>, EngineErrorModel>(seq![m]) == single_dispatch_result(
                    kv,
                    fetched,
                    e,
                ),
            Err(em) => exists|fetched: Option<Seq<u8>>|
                Err::<Seq<KeyValueModel>, EngineErrorModel>(em) == single_dispatch_result(
                    kv,
                    fetched,
                    e,
                ),
        },
{
    let fetched = choose|fetched: Option<Seq<u8>>| r == spec_single_read(kv, fetched, e);
    match r {
        Ok(None) => {
            assert(Ok::<Seq<KeyValueModel>, EngineErrorModel>(Seq::empty())
                == single_dispatch_result(kv, fetched, e));
        },
        Ok(Some(m)) => {
            assert(Ok::<Seq<KeyValueModel>, EngineErrorModel>(seq![m]) == single_dispatch_result(
                kv,
                fetched,
                e,
            ));
        },
        Err(em) => {
            assert(Err::<Seq<KeyValueModel>, EngineErrorModel>(em) == single_dispatch_result(
                kv,
                fetched,
                e,
            ));
        },
    }
}

/// A codec error at pair `i` aborts the whole interpretation.
proof fn lemma_range_results_extend_err(
    kv: KeyValueModel,
    pairs: Seq<(Seq<u8>, Seq<u8>)>,
    i: int,
    e: crate::values::Endianness,
)
    requires
        0 <= i < pairs.len(),
        spec_range_results(kv, pairs.subrange(0, i), e) is Ok,
        spec_range_pair(kv, pairs[i], e) is Err,
    ensures
        spec_range_results(kv, pairs, e) == Err::<Seq<KeyValueModel>, EngineErrorModel>(
            spec_range_pair(kv, pairs[i], e)->Err_0,
        ),
    decreases pairs.len(),
{
    if pairs.len() - 1 == i {
        assert(pairs.drop_last() =~= pairs.subrange(0, i));
        assert(pairs.last() == pairs[i]);
    } else {
        assert(pairs.drop_last()[i] == pairs[i]);
        assert(pairs.drop_last().subrange(0, i) =~= pairs.subrange(0, i));
        lemma_range_results_extend_err(kv, pairs.drop_last(), i, e);
    }
}

} // verus!
