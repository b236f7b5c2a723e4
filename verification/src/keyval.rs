//! The algebraic data model for queries, keys, tuples and values.
//!
//! A query expresses the shape of the data of interest. Holes in that shape
//! (variables, the tail wildcard) turn a write into a read; a clear marker
//! turns it into a delete. Floating-point elements carry their raw IEEE-754
//! bit pattern as a `u64`, so that packing, matching and comparison are exact
//! bit-level operations; a UUID is carried as its sixteen canonical bytes.
//!
//! Beside each executable type stands a mathematical model (`ElementModel`,
//! `ValueModel`, ...) built from sequences and plain values. Every contract in
//! this crate speaks of those models.

use vstd::prelude::*;

verus! {

/// A query that can be passed to the engine. This includes key-value, key, and
/// directory queries.
#[derive(Debug, PartialEq)]
pub enum Query {
    /// A key-value pair query (read or write)
    KeyValue(KeyValue),
    /// A key-only query (equivalent to a key-value with an unconstrained variable)
    Key(Key),
    /// A directory listing query
    Directory(Directory),
}

/// A key-value pair that can be passed as a query or returned as a result.
/// When returned as a result, it will not contain `Variable`, `Clear`, or
/// `MaybeMore`.
#[derive(Debug, PartialEq)]
pub struct KeyValue {
    pub key: Key,
    pub value: Value,
}

/// A key consisting of a directory path and tuple.
#[derive(Debug, PartialEq)]
pub struct Key {
    pub directory: Directory,
    pub tuple: Tuple,
}

/// A directory path consisting of elements that can be strings or variables.
pub type Directory = Vec<DirElement>;

/// An element in a directory path - either a concrete string or a variable
/// placeholder.
#[derive(Debug, PartialEq)]
pub enum DirElement {
    String(String),
    Variable(Variable),
}

/// A tuple of elements: the basic building block of keys.
pub type Tuple = Vec<TupElement>;

/// An element that can appear in a tuple.
#[derive(Debug, PartialEq)]
pub enum TupElement {
    /// A nested tuple
    Tuple(Tuple),
    /// Nil/empty element
    Nil,
    /// Signed 64-bit integer
    Int(i64),
    /// Unsigned 64-bit integer
    Uint(u64),
    /// Boolean value
    Bool(bool),
    /// The IEEE-754 bit pattern of a 64-bit float
    Float(u64),
    /// UTF-8 string
    String(String),
    /// UUID (16 bytes, canonical order)
    Uuid([u8; 16]),
    /// Arbitrary bytes
    Bytes(Vec<u8>),
    /// Variable placeholder with type constraints
    Variable(Variable),
    /// Special marker allowing additional tuple elements (only valid as last element)
    MaybeMore,
    /// Versionstamp with transaction and user versions
    VStamp(VStamp),
    /// Future versionstamp (assigned at commit time)
    VStampFuture(VStampFuture),
}

/// A value that can be stored in a key-value pair.
#[derive(Debug, PartialEq)]
pub enum Value {
    /// A tuple value
    Tuple(Tuple),
    /// Nil/empty value
    Nil,
    /// Signed 64-bit integer
    Int(i64),
    /// Unsigned 64-bit integer
    Uint(u64),
    /// Boolean value
    Bool(bool),
    /// The IEEE-754 bit pattern of a 64-bit float
    Float(u64),
    /// UTF-8 string
    String(String),
    /// UUID (16 bytes, canonical order)
    Uuid([u8; 16]),
    /// Arbitrary bytes
    Bytes(Vec<u8>),
    /// Variable placeholder with type constraints
    Variable(Variable),
    /// Clear marker (delete this key)
    Clear,
    /// Versionstamp with transaction and user versions
    VStamp(VStamp),
    /// Future versionstamp (assigned at commit time)
    VStampFuture(VStampFuture),
}

/// A variable placeholder defining a schema. Variables can have type constraints.
#[derive(Debug, PartialEq)]
pub struct Variable {
    /// Type constraints for this variable. Empty means any type is allowed.
    pub types: Vec<ValueType>,
}

/// Type constraints that a variable may impose on the values it matches.
#[derive(Debug, Clone, Copy, PartialEq, Eq, Hash)]
pub enum ValueType {
    /// Any type is allowed (default)
    Any,
    /// Signed integer
    Int,
    /// Unsigned integer
    Uint,
    /// Boolean
    Bool,
    /// Floating point
    Float,
    /// String
    String,
    /// Bytes
    Bytes,
    /// UUID
    Uuid,
    /// Tuple
    Tuple,
    /// Versionstamp
    VStamp,
}

/// A versionstamp represents a point in time in the database.
#[derive(Debug, Clone, Copy, PartialEq, Eq)]
pub struct VStamp {
    /// The 10-byte transaction version assigned by the store
    pub tx_version: [u8; 10],
    /// User-defined 16-bit version
    pub user_version: u16,
}

/// A future versionstamp that will be assigned when the transaction commits.
#[derive(Debug, Clone, Copy, PartialEq, Eq)]
pub struct VStampFuture {
    /// User-defined 16-bit version
    pub user_version: u16,
}

// ---------------------------------------------------------------------------
// Mathematical models
// ---------------------------------------------------------------------------

/// Model of a directory element: the path segment's characters, or the
/// type constraints of a path hole.
#[verifier::ext_equal]
pub enum DirElementModel {
    String(Seq<char>),
    Variable(Seq<ValueType>),
}

/// Model of a tuple element. Nested tuples become sequences of models;
/// strings and byte payloads become sequences of their items.
#[verifier::ext_equal]
pub enum ElementModel {
    Tuple(Seq<ElementModel>),
    Nil,
    Int(i64),
    Uint(u64),
    Bool(bool),
    Float(u64),
    String(Seq<char>),
    Uuid(Seq<u8>),
    Bytes(Seq<u8>),
    Variable(Seq<ValueType>),
    MaybeMore,
    VStamp { tx: Seq<u8>, user: u16 },
    VStampFuture(u16),
}

/// Model of a value.
#[verifier::ext_equal]
pub enum ValueModel {
    Tuple(Seq<ElementModel>),
    Nil,
    Int(i64),
    Uint(u64),
    Bool(bool),
    Float(u64),
    String(Seq<char>),
    Uuid(Seq<u8>),
    Bytes(Seq<u8>),
    Variable(Seq<ValueType>),
    Clear,
    VStamp { tx: Seq<u8>, user: u16 },
    VStampFuture(u16),
}

/// Model of a key: the directory path and the tuple.
#[verifier::ext_equal]
pub struct KeyModel {
    pub directory: Seq<DirElementModel>,
    pub tuple: Seq<ElementModel>,
}

/// Model of a key-value pair.
#[verifier::ext_equal]
pub struct KeyValueModel {
    pub key: KeyModel,
    pub value: ValueModel,
}

/// Model of a query.
#[verifier::ext_equal]
pub enum QueryModel {
    KeyValue(KeyValueModel),
    Key(KeyModel),
    Directory(Seq<DirElementModel>),
}

pub open spec fn dir_element_model(e: DirElement) -> DirElementModel {
    match e {
        DirElement::String(s) => DirElementModel::String(s@),
        DirElement::Variable(v) => DirElementModel::Variable(v.types@),
    }
}

pub open spec fn dir_model(d: Seq<DirElement>) -> Seq<DirElementModel>
    decreases d.len(),
{
    if d.len() == 0 {
        Seq::empty()
    } else {
        dir_model(d.drop_last()).push(dir_element_model(d.last()))
    }
}

pub open spec fn element_model(e: TupElement) -> ElementModel
    decreases e,
{
    match e {
        TupElement::Tuple(t) => ElementModel::Tuple(tuple_model(t@)),
        TupElement::Nil => ElementModel::Nil,
        TupElement::Int(i) => ElementModel::Int(i),
        TupElement::Uint(u) => ElementModel::Uint(u),
        TupElement::Bool(b) => ElementModel::Bool(b),
        TupElement::Float(bits) => ElementModel::Float(bits),
        TupElement::String(s) => ElementModel::String(s@),
        TupElement::Uuid(u) => ElementModel::Uuid(u@),
        TupElement::Bytes(b) => ElementModel::Bytes(b@),
        TupElement::Variable(v) => ElementModel::Variable(v.types@),
        TupElement::MaybeMore => ElementModel::MaybeMore,
        TupElement::VStamp(v) => ElementModel::VStamp { tx: v.tx_version@, user: v.user_version },
        TupElement::VStampFuture(v) => ElementModel::VStampFuture(v.user_version),
    }
}

pub open spec fn tuple_model(t: Seq<TupElement>) -> Seq<ElementModel>
    decreases t,
{
    if t.len() == 0 {
        Seq::empty()
    } else {
        tuple_model(t.drop_last()).push(element_model(t.last()))
    }
}

pub open spec fn value_model(v: Value) -> ValueModel {
    match v {
        Value::Tuple(t) => ValueModel::Tuple(tuple_model(t@)),
        Value::Nil => ValueModel::Nil,
        Value::Int(i) => ValueModel::Int(i),
        Value::Uint(u) => ValueModel::Uint(u),
        Value::Bool(b) => ValueModel::Bool(b),
        Value::Float(bits) => ValueModel::Float(bits),
        Value::String(s) => ValueModel::String(s@),
        Value::Uuid(u) => ValueModel::Uuid(u@),
        Value::Bytes(b) => ValueModel::Bytes(b@),
        Value::Variable(v) => ValueModel::Variable(v.types@),
        Value::Clear => ValueModel::Clear,
        Value::VStamp(v) => ValueModel::VStamp { tx: v.tx_version@, user: v.user_version },
        Value::VStampFuture(v) => ValueModel::VStampFuture(v.user_version),
    }
}

pub open spec fn key_model(k: Key) -> KeyModel {
    KeyModel { directory: dir_model(k.directory@), tuple: tuple_model(k.tuple@) }
}

pub open spec fn key_value_model(kv: KeyValue) -> KeyValueModel {
    KeyValueModel { key: key_model(kv.key), value: value_model(kv.value) }
}

pub open spec fn query_model(q: Query) -> QueryModel {
    match q {
        Query::KeyValue(kv) => QueryModel::KeyValue(key_value_model(kv)),
        Query::Key(k) => QueryModel::Key(key_model(k)),
        Query::Directory(d) => QueryModel::Directory(dir_model(d@)),
    }
}

/// The model of a tuple is the pointwise model of its elements.
pub broadcast proof fn lemma_tuple_model(t: Seq<TupElement>)
    ensures
        #[trigger] tuple_model(t).len() == t.len(),
        forall|i: int| 0 <= i < t.len() ==> tuple_model(t)[i] == element_model(t[i]),
    decreases t.len(),
{
    if t.len() > 0 {
        lemma_tuple_model(t.drop_last());
    }
}

// ---------------------------------------------------------------------------
// Constructors
// ---------------------------------------------------------------------------

impl Variable {
    /// Create a new variable that accepts any type.
    pub fn any() -> (r: Self)
        ensures
            r.types@ =~= Seq::<ValueType>::empty(),
    {
        Self { types: Vec::new() }
    }

    /// Create a new variable with specific type constraints.
    pub fn with_types(types: Vec<ValueType>) -> (r: Self)
        ensures
            r.types == types,
    {
        Self { types }
    }
}

impl ValueType {
    /// Get all possible value types.
    pub fn all() -> (r: Vec<ValueType>)
        ensures
            r@ =~= seq![
                ValueType::Any,
                ValueType::Int,
                ValueType::Uint,
                ValueType::Bool,
                ValueType::Float,
                ValueType::String,
                ValueType::Bytes,
                ValueType::Uuid,
                ValueType::Tuple,
                ValueType::VStamp,
            ],
    {
        let mut r: Vec<ValueType> = Vec::new();
        r.push(ValueType::Any);
        r.push(ValueType::Int);
        r.push(ValueType::Uint);
        r.push(ValueType::Bool);
        r.push(ValueType::Float);
        r.push(ValueType::String);
        r.push(ValueType::Bytes);
        r.push(ValueType::Uuid);
        r.push(ValueType::Tuple);
        r.push(ValueType::VStamp);
        r
    }
}

/// The canonical text of a value type, as it appears in variable constraints.
pub open spec fn value_type_text(t: ValueType) -> Seq<char> {
    match t {
        ValueType::Any => ""@,
        ValueType::Int => "int"@,
        ValueType::Uint => "uint"@,
        ValueType::Bool => "bool"@,
        ValueType::Float => "float"@,
        ValueType::String => "string"@,
        ValueType::Bytes => "bytes"@,
        ValueType::Uuid => "uuid"@,
        ValueType::Tuple => "tuple"@,
        ValueType::VStamp => "vstamp"@,
    }
}

impl ValueType {
    /// The display text of this value type.
    pub fn text(&self) -> (r: String)
        ensures
            r@ == value_type_text(*self),
    {
        match self {
            ValueType::Any => String::from_str(""),
            ValueType::Int => String::from_str("int"),
            ValueType::Uint => String::from_str("uint"),
            ValueType::Bool => String::from_str("bool"),
            ValueType::Float => String::from_str("float"),
            ValueType::String => String::from_str("string"),
            ValueType::Bytes => String::from_str("bytes"),
            ValueType::Uuid => String::from_str("uuid"),
            ValueType::Tuple => String::from_str("tuple"),
            ValueType::VStamp => String::from_str("vstamp"),
        }
    }
}

impl Query {
    pub fn key_value(key: Key, value: Value) -> (r: Self)
        ensures
            r == Query::KeyValue(KeyValue { key, value }),
    {
        Query::KeyValue(KeyValue { key, value })
    }

    pub fn key(directory: Directory, tuple: Tuple) -> (r: Self)
        ensures
            r == Query::Key(Key { directory, tuple }),
    {
        Query::Key(Key { directory, tuple })
    }

    pub fn directory(directory: Directory) -> (r: Self)
        ensures
            r == Query::Directory(directory),
    {
        Query::Directory(directory)
    }
}

impl KeyValue {
    pub fn new(key: Key, value: Value) -> (r: Self)
        ensures
            r == (KeyValue { key, value }),
    {
        Self { key, value }
    }
}

impl Key {
    pub fn new(directory: Directory, tuple: Tuple) -> (r: Self)
        ensures
            r == (Key { directory, tuple }),
    {
        Self { directory, tuple }
    }
}

// ---------------------------------------------------------------------------
// Cloning
//
// The clones are written by hand so that each carries a contract: the clone
// has the same model as the original.
// ---------------------------------------------------------------------------

fn copy_types(v: &Vec<ValueType>) -> (r: Vec<ValueType>)
    ensures
        r@ =~= v@,
{
    let mut r: Vec<ValueType> = Vec::new();
    let mut i: usize = 0;
    while i < v.len()
        invariant
            i <= v.len(),
            r@ =~= v@.subrange(0, i as int),
        decreases v.len() - i,
    {
        r.push(v[i]);
        i = i + 1;
    }
    r
}

fn copy_bytes(v: &Vec<u8>) -> (r: Vec<u8>)
    ensures
        r@ =~= v@,
{
    let mut r: Vec<u8> = Vec::new();
    let mut i: usize = 0;
    while i < v.len()
        invariant
            i <= v.len(),
            r@ =~= v@.subrange(0, i as int),
        decreases v.len() - i,
    {
        r.push(v[i]);
        i = i + 1;
    }
    r
}

fn copy_element(e: &TupElement) -> (r: TupElement)
    ensures
        element_model(r) == element_model(*e),
    decreases e,
{
    match e {
        TupElement::Tuple(t) => TupElement::Tuple(copy_tuple(t)),
        TupElement::Nil => TupElement::Nil,
        TupElement::Int(i) => TupElement::Int(*i),
        TupElement::Uint(u) => TupElement::Uint(*u),
        TupElement::Bool(b) => TupElement::Bool(*b),
        TupElement::Float(bits) => TupElement::Float(*bits),
        TupElement::String(s) => TupElement::String(s.clone()),
        TupElement::Uuid(u) => TupElement::Uuid(*u),
        TupElement::Bytes(b) => TupElement::Bytes(copy_bytes(b)),
        TupElement::Variable(v) => TupElement::Variable(v.clone()),
        TupElement::MaybeMore => TupElement::MaybeMore,
        TupElement::VStamp(v) => TupElement::VStamp(*v),
        TupElement::VStampFuture(v) => TupElement::VStampFuture(*v),
    }
}

fn copy_tuple(t: &Vec<TupElement>) -> (r: Vec<TupElement>)
    ensures
        tuple_model(r@) == tuple_model(t@),
    decreases t@,
{
    let mut r: Vec<TupElement> = Vec::new();
    let mut i: usize = 0;
    while i < t.len()
        invariant
            i <= t.len(),
            tuple_model(r@) == tuple_model(t@.subrange(0, i as int)),
        decreases t.len() - i,
    {
        let ghost pre = r@;
        r.push(copy_element(&t[i]));
        proof {
            assert(r@.drop_last() =~= pre);
            assert(t@.subrange(0, i + 1).drop_last() =~= t@.subrange(0, i as int));
            assert(t@.subrange(0, i + 1).last() == t@[i as int]);
        }
        i = i + 1;
    }
    proof {
        assert(t@.subrange(0, t@.len() as int) =~= t@);
    }
    r
}

impl Clone for Variable {
    fn clone(&self) -> (r: Self)
        ensures
            r.types@ == self.types@,
    {
        Variable { types: copy_types(&self.types) }
    }
}

impl Clone for DirElement {
    fn clone(&self) -> (r: Self)
        ensures
            dir_element_model(r) == dir_element_model(*self),
    {
        match self {
            DirElement::String(s) => DirElement::String(s.clone()),
            DirElement::Variable(v) => DirElement::Variable(v.clone()),
        }
    }
}

pub(crate) fn copy_directory(d: &Vec<DirElement>) -> (r: Vec<DirElement>)
    ensures
        dir_model(r@) == dir_model(d@),
{
    let mut r: Vec<DirElement> = Vec::new();
    let mut i: usize = 0;
    while i < d.len()
        invariant
            i <= d.len(),
            dir_model(r@) == dir_model(d@.subrange(0, i as int)),
        decreases d.len() - i,
    {
        let ghost pre = r@;
        r.push(d[i].clone());
        proof {
            assert(r@.drop_last() =~= pre);
            assert(d@.subrange(0, i + 1).drop_last() =~= d@.subrange(0, i as int));
            assert(d@.subrange(0, i + 1).last() == d@[i as int]);
        }
        i = i + 1;
    }
    proof {
        assert(d@.subrange(0, d@.len() as int) =~= d@);
    }
    r
}

impl Clone for TupElement {
    fn clone(&self) -> (r: Self)
        ensures
            element_model(r) == element_model(*self),
    {
        copy_element(self)
    }
}

impl Clone for Value {
    fn clone(&self) -> (r: Self)
        ensures
            value_model(r) == value_model(*self),
    {
        match self {
            Value::Tuple(t) => Value::Tuple(copy_tuple(t)),
            Value::Nil => Value::Nil,
            Value::Int(i) => Value::Int(*i),
            Value::Uint(u) => Value::Uint(*u),
            Value::Bool(b) => Value::Bool(*b),
            Value::Float(bits) => Value::Float(*bits),
            Value::String(s) => Value::String(s.clone()),
            Value::Uuid(u) => Value::Uuid(*u),
            Value::Bytes(b) => Value::Bytes(copy_bytes(b)),
            Value::Variable(v) => Value::Variable(v.clone()),
            Value::Clear => Value::Clear,
            Value::VStamp(v) => Value::VStamp(*v),
            Value::VStampFuture(v) => Value::VStampFuture(*v),
        }
    }
}

impl Clone for Key {
    fn clone(&self) -> (r: Self)
        ensures
            key_model(r) == key_model(*self),
    {
        Key { directory: copy_directory(&self.directory), tuple: copy_tuple(&self.tuple) }
    }
}

impl Clone for KeyValue {
    fn clone(&self) -> (r: Self)
        ensures
            key_value_model(r) == key_value_model(*self),
    {
        KeyValue { key: self.key.clone(), value: self.value.clone() }
    }
}

impl Clone for Query {
    fn clone(&self) -> (r: Self)
        ensures
            query_model(r) == query_model(*self),
    {
        match self {
            Query::KeyValue(kv) => Query::KeyValue(kv.clone()),
            Query::Key(k) => Query::Key(k.clone()),
            Query::Directory(d) => Query::Directory(copy_directory(d)),
        }
    }
}

} // verus!
