//! Value serialization and deserialization.
//!
//! A leaf value is packed into the bytes that the store holds for it, and
//! unpacked back under a declared value type. Numeric values are eight bytes
//! under the configured endianness; a float is packed as its IEEE-754 bit
//! pattern; a string is its UTF-8 bytes; a versionstamp is its ten
//! transaction bytes followed by the little-endian user version.

use vstd::prelude::*;
use vstd::bytes::{
    spec_u16_to_le_bytes, spec_u16_from_le_bytes, lemma_auto_spec_u16_to_from_le_bytes,
    u16_to_le_bytes, u16_from_le_bytes, spec_u64_to_le_bytes, spec_u64_from_le_bytes,
    lemma_auto_spec_u64_to_from_le_bytes, u64_to_le_bytes, u64_from_le_bytes,
};
use vstd::slice::slice_to_vec;
use vstd::utf8::{valid_utf8, decode_utf8, encode_utf8, encode_utf8_valid_utf8,
    encode_utf8_decode_utf8};

use crate::keyval::{Value, ValueType, ValueModel, value_model};
use crate::text::{string_from_utf8, dec_chars, u64_dec_string};

verus! {

/// An error of the value codec.
#[derive(Debug, Clone, PartialEq, Eq)]
pub enum SerializationError {
    /// Serialization or deserialization failed outright.
    Failed(String),
    /// The value kind cannot be serialized at all.
    CannotSerialize(String),
    /// The data length does not fit the declared type.
    InvalidLength { expected: usize, actual: usize },
    /// The declared type is not known to the codec.
    UnknownType(String),
}

/// Model of a codec error.
#[verifier::ext_equal]
pub enum ErrorModel {
    Failed(Seq<char>),
    CannotSerialize(Seq<char>),
    InvalidLength { expected: int, actual: int },
    UnknownType(Seq<char>),
}

pub open spec fn error_model(e: SerializationError) -> ErrorModel {
    match e {
        SerializationError::Failed(s) => ErrorModel::Failed(s@),
        SerializationError::CannotSerialize(s) => ErrorModel::CannotSerialize(s@),
        SerializationError::InvalidLength { expected, actual } => ErrorModel::InvalidLength {
            expected: expected as int,
            actual: actual as int,
        },
        SerializationError::UnknownType(s) => ErrorModel::UnknownType(s@),
    }
}

/// The display text of a codec error.
pub open spec fn serialization_error_text(e: ErrorModel) -> Seq<char> {
    match e {
        ErrorModel::Failed(m) => "Serialization failed: "@ + m,
        ErrorModel::CannotSerialize(m) => "Cannot serialize "@ + m,
        ErrorModel::InvalidLength { expected, actual } => "Invalid data length: expected "@
            + dec_chars(expected as nat) + ", got "@ + dec_chars(actual as nat),
        ErrorModel::UnknownType(m) => "Unknown value type: "@ + m,
    }
}

impl SerializationError {
    /// The display text of this error.
    pub fn text(&self) -> (r: String)
        ensures
            r@ == serialization_error_text(error_model(*self)),
    {
        match self {
            SerializationError::Failed(m) => {
                let mut s = String::from_str("Serialization failed: ");
                s.append(m.as_str());
                proof {
                    assert(s@ =~= "Serialization failed: "@ + m@);
                }
                s
            },
            SerializationError::CannotSerialize(m) => {
                let mut s = String::from_str("Cannot serialize ");
                s.append(m.as_str());
                proof {
                    assert(s@ =~= "Cannot serialize "@ + m@);
                }
                s
            },
            SerializationError::InvalidLength { expected, actual } => {
                let mut s = String::from_str("Invalid data length: expected ");
                let e_text = u64_dec_string(*expected as u64);
                s.append(e_text.as_str());
                s.append(", got ");
                let a_text = u64_dec_string(*actual as u64);
                s.append(a_text.as_str());
                proof {
                    assert(s@ =~= "Invalid data length: expected "@ + dec_chars(*expected as nat)
                        + ", got "@ + dec_chars(*actual as nat));
                }
                s
            },
            SerializationError::UnknownType(m) => {
                let mut s = String::from_str("Unknown value type: ");
                s.append(m.as_str());
                proof {
                    assert(s@ =~= "Unknown value type: "@ + m@);
                }
                s
            },
        }
    }
}

/// Endianness configuration for numeric value serialization.
#[derive(Debug, Clone, Copy, PartialEq, Eq, Structural)]
pub enum Endianness {
    Big,
    Little,
}

/// The eight bytes of a 64-bit integer under the given endianness.
pub open spec fn spec_u64_bytes(x: u64, e: Endianness) -> Seq<u8> {
    match e {
        Endianness::Big => spec_u64_to_le_bytes(x).reverse(),
        Endianness::Little => spec_u64_to_le_bytes(x),
    }
}

/// The 64-bit integer read from eight bytes under the given endianness.
pub open spec fn spec_u64_from_bytes(s: Seq<u8>, e: Endianness) -> u64
    recommends
        s.len() == 8,
{
    match e {
        Endianness::Big => spec_u64_from_le_bytes(s.reverse()),
        Endianness::Little => spec_u64_from_le_bytes(s),
    }
}

pub(crate) fn u64_bytes(x: u64, e: Endianness) -> (r: Vec<u8>)
    ensures
        r@ == spec_u64_bytes(x, e),
        r@.len() == 8,
{
    let le = u64_to_le_bytes(x);
    match e {
        Endianness::Little => le,
        Endianness::Big => {
            let mut r: Vec<u8> = Vec::new();
            let mut i: usize = 0;
            while i < 8
                invariant
                    i <= 8,
                    le@ == spec_u64_to_le_bytes(x),
                    le@.len() == 8,
                    r@.len() == i,
                    forall|j: int| 0 <= j < i ==> r@[j] == le@[7 - j],
                decreases 8 - i,
            {
                r.push(le[7 - i]);
                i = i + 1;
            }
            proof {
                assert(r@ =~= le@.reverse());
            }
            r
        },
    }
}

fn u64_from_bytes(data: &[u8], e: Endianness) -> (r: u64)
    requires
        data@.len() == 8,
    ensures
        r == spec_u64_from_bytes(data@, e),
{
    match e {
        Endianness::Little => u64_from_le_bytes(data),
        Endianness::Big => {
            let mut rev: Vec<u8> = Vec::new();
            let mut i: usize = 0;
            while i < 8
                invariant
                    i <= 8,
                    data@.len() == 8,
                    rev@.len() == i,
                    forall|j: int| 0 <= j < i ==> rev@[j] == data@[7 - j],
                decreases 8 - i,
            {
                rev.push(data[7 - i]);
                i = i + 1;
            }
            proof {
                assert(rev@ =~= data@.reverse());
            }
            u64_from_le_bytes(rev.as_slice())
        },
    }
}

/// A run of zero bytes.
pub open spec fn zero_bytes(n: nat) -> Seq<u8> {
    Seq::new(n, |i: int| 0u8)
}

/// The model of a packing result.
pub open spec fn pack_result_model(r: Result<Vec<u8>, SerializationError>) -> Result<
    Seq<u8>,
    ErrorModel,
> {
    match r {
        Ok(v) => Ok(v@),
        Err(e) => Err(error_model(e)),
    }
}

/// The bytes that packing a value yields, or the error that refuses it: a
/// variable and a clear marker cannot be serialized, and a tuple is
/// delegated to the tuple layer (here a placeholder that packs to nothing
/// and refuses a contained versionstamp).
pub open spec fn spec_pack(v: ValueModel, e: Endianness, has_vstamp: bool) -> Result<
    Seq<u8>,
    ErrorModel,
> {
    match v {
        ValueModel::Nil => Ok(Seq::empty()),
        ValueModel::Bool(b) => Ok(seq![if b { 1u8 } else { 0u8 }]),
        ValueModel::Int(i) => Ok(spec_u64_bytes(i as u64, e)),
        ValueModel::Uint(u) => Ok(spec_u64_bytes(u, e)),
        ValueModel::Float(bits) => Ok(spec_u64_bytes(bits, e)),
        ValueModel::String(s) => Ok(encode_utf8(s)),
        ValueModel::Uuid(u) => Ok(u),
        ValueModel::Bytes(b) => Ok(b),
        ValueModel::Tuple(_) => {
            if has_vstamp {
                Err(ErrorModel::Failed("Versionstamp tuple packing not yet implemented"@))
            } else {
                Ok(Seq::empty())
            }
        },
        ValueModel::VStamp { tx, user } => Ok(tx + spec_u16_to_le_bytes(user)),
        ValueModel::VStampFuture(user) => Ok(
            zero_bytes(10) + spec_u16_to_le_bytes(user) + zero_bytes(4),
        ),
        ValueModel::Variable(_) => Err(ErrorModel::CannotSerialize("Variable"@)),
        ValueModel::Clear => Err(ErrorModel::CannotSerialize("Clear"@)),
    }
}

/// Pack a value into bytes for storage.
///
/// `endianness` gives the byte order of numeric values; `has_vstamp` says
/// whether the value contains a versionstamp, which the placeholder tuple
/// packing refuses.
pub fn pack(value: &Value, endianness: Endianness, has_vstamp: bool) -> (r: Result<
    Vec<u8>,
    SerializationError,
>)
    ensures
        pack_result_model(r) == spec_pack(value_model(*value), endianness, has_vstamp),
{
    match value {
        Value::Nil => {
            let r: Vec<u8> = Vec::new();
            proof {
                assert(r@ =~= Seq::<u8>::empty());
            }
            Ok(r)
        },
        Value::Bool(b) => {
            let mut r: Vec<u8> = Vec::new();
            r.push(if *b {
                1
            } else {
                0
            });
            proof {
                assert(r@ =~= seq![if *b { 1u8 } else { 0u8 }]);
            }
            Ok(r)
        },
        Value::Int(i) => {
            let u: u64 = #[verifier::truncate] (*i as u64);
            Ok(u64_bytes(u, endianness))
        },
        Value::Uint(u) => Ok(u64_bytes(*u, endianness)),
        Value::Float(bits) => Ok(u64_bytes(*bits, endianness)),
        Value::String(s) => Ok(s.as_str().as_bytes_vec()),
        Value::Uuid(u) => {
            let mut r: Vec<u8> = Vec::new();
            let mut i: usize = 0;
            while i < 16
                invariant
                    i <= 16,
                    r@.len() == i,
                    forall|j: int| 0 <= j < i ==> r@[j] == u@[j],
                decreases 16 - i,
            {
                r.push(u[i]);
                i = i + 1;
            }
            proof {
                assert(r@ =~= u@);
            }
            Ok(r)
        },
        Value::Bytes(b) => {
            let mut r: Vec<u8> = Vec::new();
            let mut i: usize = 0;
            while i < b.len()
                invariant
                    i <= b.len(),
                    r@ =~= b@.subrange(0, i as int),
                decreases b.len() - i,
            {
                r.push(b[i]);
                i = i + 1;
            }
            proof {
                assert(r@ =~= b@);
            }
            Ok(r)
        },
        Value::Tuple(_tup) => {
            // Tuple packing belongs to the external tuple layer; this
            // placeholder packs to nothing and refuses a versionstamp.
            if has_vstamp {
                Err(SerializationError::Failed(String::from_str(
                    "Versionstamp tuple packing not yet implemented",
                )))
            } else {
                let r: Vec<u8> = Vec::new();
                proof {
                    assert(r@ =~= Seq::<u8>::empty());
                }
                Ok(r)
            }
        },
        Value::VStamp(vstamp) => {
            // A versionstamp is 12 bytes: the 10-byte transaction version
            // followed by the 2-byte little-endian user version.
            let mut r: Vec<u8> = Vec::new();
            let mut i: usize = 0;
            while i < 10
                invariant
                    i <= 10,
                    r@.len() == i,
                    forall|j: int| 0 <= j < i ==> r@[j] == vstamp.tx_version@[j],
                decreases 10 - i,
            {
                r.push(vstamp.tx_version[i]);
                i = i + 1;
            }
            let mut uv = u16_to_le_bytes(vstamp.user_version);
            r.append(&mut uv);
            proof {
                assert(r@ =~= vstamp.tx_version@ + spec_u16_to_le_bytes(vstamp.user_version));
            }
            Ok(r)
        },
        Value::VStampFuture(vstamp) => {
            // A future versionstamp is 16 bytes: 10 zero bytes, the 2-byte
            // little-endian user version, and 4 zero bytes for the position
            // the tuple layer fills in at pack time.
            let mut r: Vec<u8> = Vec::new();
            let mut i: usize = 0;
            while i < 10
                invariant
                    i <= 10,
                    r@.len() == i,
                    forall|j: int| 0 <= j < i ==> r@[j] == 0u8,
                decreases 10 - i,
            {
                r.push(0);
                i = i + 1;
            }
            let mut uv = u16_to_le_bytes(vstamp.user_version);
            r.append(&mut uv);
            let mut k: usize = 0;
            while k < 4
                invariant
                    k <= 4,
                    r@.len() == 12 + k,
                    r@.subrange(0, 10) =~= zero_bytes(10),
                    r@.subrange(10, 12) =~= spec_u16_to_le_bytes(vstamp.user_version),
                    forall|j: int| 12 <= j < 12 + k ==> r@[j] == 0u8,
                decreases 4 - k,
            {
                r.push(0);
                k = k + 1;
            }
            proof {
                assert(r@ =~= zero_bytes(10) + spec_u16_to_le_bytes(vstamp.user_version)
                    + zero_bytes(4));
            }
            Ok(r)
        },
        Value::Variable(_) => Err(SerializationError::CannotSerialize(String::from_str(
            "Variable",
        ))),
        Value::Clear => Err(SerializationError::CannotSerialize(String::from_str("Clear"))),
    }
}

/// The model of an unpacking result.
pub open spec fn unpack_result_model(r: Result<Value, SerializationError>) -> Result<
    ValueModel,
    ErrorModel,
> {
    match r {
        Ok(v) => Ok(value_model(v)),
        Err(e) => Err(error_model(e)),
    }
}

/// The value that unpacking bytes under a declared type yields, or the error
/// that refuses them: a wrong length yields `InvalidLength`, bytes that are
/// not UTF-8 refuse to unpack as a string, `Any` unpacks as raw bytes, and a
/// tuple is delegated to the tuple layer (here a placeholder yielding the
/// empty tuple).
pub open spec fn spec_unpack(data: Seq<u8>, t: ValueType, e: Endianness) -> Result<
    ValueModel,
    ErrorModel,
> {
    match t {
        ValueType::Any => Ok(ValueModel::Bytes(data)),
        ValueType::Bool => {
            if data.len() != 1 {
                Err(ErrorModel::InvalidLength { expected: 1, actual: data.len() as int })
            } else {
                Ok(ValueModel::Bool(data[0] == 1))
            }
        },
        ValueType::Int => {
            if data.len() != 8 {
                Err(ErrorModel::InvalidLength { expected: 8, actual: data.len() as int })
            } else {
                Ok(ValueModel::Int(spec_u64_from_bytes(data, e) as i64))
            }
        },
        ValueType::Uint => {
            if data.len() != 8 {
                Err(ErrorModel::InvalidLength { expected: 8, actual: data.len() as int })
            } else {
                Ok(ValueModel::Uint(spec_u64_from_bytes(data, e)))
            }
        },
        ValueType::Float => {
            if data.len() != 8 {
                Err(ErrorModel::InvalidLength { expected: 8, actual: data.len() as int })
            } else {
                Ok(ValueModel::Float(spec_u64_from_bytes(data, e)))
            }
        },
        ValueType::String => {
            if valid_utf8(data) {
                Ok(ValueModel::String(decode_utf8(data)))
            } else {
                Err(ErrorModel::Failed("Invalid UTF-8"@))
            }
        },
        ValueType::Bytes => Ok(ValueModel::Bytes(data)),
        ValueType::Uuid => {
            if data.len() != 16 {
                Err(ErrorModel::InvalidLength { expected: 16, actual: data.len() as int })
            } else {
                Ok(ValueModel::Uuid(data))
            }
        },
        ValueType::Tuple => Ok(ValueModel::Tuple(Seq::empty())),
        ValueType::VStamp => {
            if data.len() != 12 {
                Err(ErrorModel::InvalidLength { expected: 12, actual: data.len() as int })
            } else {
                Ok(ValueModel::VStamp {
                    tx: data.subrange(0, 10),
                    user: spec_u16_from_le_bytes(data.subrange(10, 12)),
                })
            }
        },
    }
}

/// Unpack bytes into a value under a declared type.
pub fn unpack(data: &[u8], value_type: ValueType, endianness: Endianness) -> (r: Result<
    Value,
    SerializationError,
>)
    ensures
        unpack_result_model(r) == spec_unpack(data@, value_type, endianness),
{
    match value_type {
        ValueType::Any => Ok(Value::Bytes(slice_to_vec(data))),
        ValueType::Bool => {
            if data.len() != 1 {
                Err(SerializationError::InvalidLength { expected: 1, actual: data.len() })
            } else {
                Ok(Value::Bool(data[0] == 1))
            }
        },
        ValueType::Int => {
            if data.len() != 8 {
                Err(SerializationError::InvalidLength { expected: 8, actual: data.len() })
            } else {
                let u = u64_from_bytes(data, endianness);
                Ok(Value::Int(#[verifier::truncate] (u as i64)))
            }
        },
        ValueType::Uint => {
            if data.len() != 8 {
                Err(SerializationError::InvalidLength { expected: 8, actual: data.len() })
            } else {
                Ok(Value::Uint(u64_from_bytes(data, endianness)))
            }
        },
        ValueType::Float => {
            if data.len() != 8 {
                Err(SerializationError::InvalidLength { expected: 8, actual: data.len() })
            } else {
                Ok(Value::Float(u64_from_bytes(data, endianness)))
            }
        },
        ValueType::String => {
            match string_from_utf8(slice_to_vec(data)) {
                Some(s) => Ok(Value::String(s)),
                None => Err(SerializationError::Failed(String::from_str("Invalid UTF-8"))),
            }
        },
        ValueType::Bytes => Ok(Value::Bytes(slice_to_vec(data))),
        ValueType::Uuid => {
            if data.len() != 16 {
                Err(SerializationError::InvalidLength { expected: 16, actual: data.len() })
            } else {
                let mut arr = [0u8; 16];
                let mut i: usize = 0;
                while i < 16
                    invariant
                        i <= 16,
                        data@.len() == 16,
                        forall|j: int| 0 <= j < i ==> arr@[j] == data@[j],
                    decreases 16 - i,
                {
                    arr[i] = data[i];
                    i = i + 1;
                }
                proof {
                    assert(arr@ =~= data@);
                }
                Ok(Value::Uuid(arr))
            }
        },
        ValueType::Tuple => {
            // Tuple unpacking belongs to the external tuple layer; this
            // placeholder yields the empty tuple.
            let r = Ok(Value::Tuple(Vec::new()));
            proof {
                assert(crate::keyval::tuple_model(Seq::<crate::keyval::TupElement>::empty())
                    =~= Seq::<crate::keyval::ElementModel>::empty());
            }
            r
        },
        ValueType::VStamp => {
            if data.len() != 12 {
                Err(SerializationError::InvalidLength { expected: 12, actual: data.len() })
            } else {
                let mut tx_version = [0u8; 10];
                let mut i: usize = 0;
                while i < 10
                    invariant
                        i <= 10,
                        data@.len() == 12,
                        forall|j: int| 0 <= j < i ==> tx_version@[j] == data@[j],
                    decreases 10 - i,
                {
                    tx_version[i] = data[i];
                    i = i + 1;
                }
                let mut uv: Vec<u8> = Vec::new();
                uv.push(data[10]);
                uv.push(data[11]);
                let user_version = u16_from_le_bytes(uv.as_slice());
                proof {
                    assert(tx_version@ =~= data@.subrange(0, 10));
                    assert(uv@ =~= data@.subrange(10, 12));
                }
                Ok(Value::VStamp(crate::keyval::VStamp { tx_version, user_version }))
            }
        },
    }
}

// ---------------------------------------------------------------------------
// Codec laws
// ---------------------------------------------------------------------------

/// The declared type under which a value unpacks.
pub open spec fn value_type_of(v: ValueModel) -> ValueType {
    match v {
        ValueModel::Nil => ValueType::Any,
        ValueModel::Int(_) => ValueType::Int,
        ValueModel::Uint(_) => ValueType::Uint,
        ValueModel::Bool(_) => ValueType::Bool,
        ValueModel::Float(_) => ValueType::Float,
        ValueModel::String(_) => ValueType::String,
        ValueModel::Uuid(_) => ValueType::Uuid,
        ValueModel::Bytes(_) => ValueType::Bytes,
        ValueModel::Tuple(_) => ValueType::Tuple,
        ValueModel::Variable(_) => ValueType::Any,
        ValueModel::Clear => ValueType::Any,
        ValueModel::VStamp { .. } => ValueType::VStamp,
        ValueModel::VStampFuture(_) => ValueType::VStamp,
    }
}

/// Whether a value is subject to the codec round-trip law: it packs to
/// bytes that unpack, under its own declared type and the same endianness,
/// back to the same value. Tuples are delegated to the tuple layer, a
/// variable and a clear marker refuse to pack, a nil has no declared type of
/// its own, and a future versionstamp is completed by the store rather than
/// read back.
pub open spec fn round_trips(v: ValueModel) -> bool {
    match v {
        ValueModel::Int(_) => true,
        ValueModel::Uint(_) => true,
        ValueModel::Bool(_) => true,
        ValueModel::Float(_) => true,
        ValueModel::String(_) => true,
        ValueModel::Bytes(_) => true,
        ValueModel::Uuid(u) => u.len() == 16,
        ValueModel::VStamp { tx, .. } => tx.len() == 10,
        _ => false,
    }
}

proof fn lemma_reverse_involution(s: Seq<u8>)
    ensures
        s.reverse().reverse() =~= s,
{
}

proof fn lemma_u64_bytes_round_trip(x: u64, e: Endianness)
    ensures
        spec_u64_bytes(x, e).len() == 8,
        spec_u64_from_bytes(spec_u64_bytes(x, e), e) == x,
{
    lemma_auto_spec_u64_to_from_le_bytes();
    match e {
        Endianness::Little => {},
        Endianness::Big => {
            lemma_reverse_involution(spec_u64_to_le_bytes(x));
        },
    }
}

/// The codec round-trip law: packing a round-trippable value and unpacking
/// the bytes under the value's own declared type and the same endianness
/// yields the value again, bit-exactly (a float is carried as its bit
/// pattern).
pub proof fn lemma_codec_round_trip(v: ValueModel, e: Endianness)
    requires
        round_trips(v),
    ensures
        spec_pack(v, e, false) is Ok,
        spec_unpack(spec_pack(v, e, false)->Ok_0, value_type_of(v), e) == Ok::<
            ValueModel,
            ErrorModel,
        >(v),
{
    let data = spec_pack(v, e, false)->Ok_0;
    match v {
        ValueModel::Int(i) => {
            lemma_u64_bytes_round_trip(i as u64, e);
            let u = spec_u64_from_bytes(data, e);
            assert(u == i as u64);
            assert((u as i64) == i) by (bit_vector)
                requires
                    u == i as u64,
            ;
        },
        ValueModel::Uint(u) => {
            lemma_u64_bytes_round_trip(u, e);
        },
        ValueModel::Float(bits) => {
            lemma_u64_bytes_round_trip(bits, e);
        },
        ValueModel::Bool(b) => {
        },
        ValueModel::String(s) => {
            encode_utf8_valid_utf8(s);
            encode_utf8_decode_utf8(s);
        },
        ValueModel::Bytes(_) => {},
        ValueModel::Uuid(_) => {},
        ValueModel::VStamp { tx, user } => {
            lemma_auto_spec_u16_to_from_le_bytes();
            assert(data.len() == 12);
            assert(data.subrange(0, 10) =~= tx);
            assert(data.subrange(10, 12) =~= spec_u16_to_le_bytes(user));
        },
        _ => {},
    }
}

/// Endianness independence: packing an integer big-endian yields exactly the
/// byte-reversal of packing it little-endian.
pub proof fn lemma_endianness_reversal(i: i64)
    ensures
        spec_pack(ValueModel::Int(i), Endianness::Big, false)->Ok_0 == spec_pack(
            ValueModel::Int(i),
            Endianness::Little,
            false,
        )->Ok_0.reverse(),
{
}

/// Codec refusal: a variable and a clear marker always refuse to pack, with
/// `CannotSerialize` naming the refused kind.
pub proof fn lemma_pack_refusal(types: Seq<ValueType>, e: Endianness, has_vstamp: bool)
    ensures
        spec_pack(ValueModel::Variable(types), e, has_vstamp) == Err::<Seq<u8>, ErrorModel>(
            ErrorModel::CannotSerialize("Variable"@),
        ),
        spec_pack(ValueModel::Clear, e, has_vstamp) == Err::<Seq<u8>, ErrorModel>(
            ErrorModel::CannotSerialize("Clear"@),
        ),
{
}

} // verus!
