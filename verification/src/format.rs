//! Query formatting.
//!
//! Converts query structures back into query strings: `/dir(1,"two")=3`.
//! A float element is rendered from its stored IEEE-754 bit pattern as a
//! `#float:`-prefixed hexadecimal literal, since the value is carried
//! bit-exactly rather than as host text; versionstamps render as `#`-marked
//! placeholders.

use vstd::prelude::*;

use crate::keyval::{
    Query, KeyValue, Key, Value, DirElement, TupElement, Directory, Tuple, Variable, ValueType,
    QueryModel, KeyValueModel, KeyModel, ValueModel, ElementModel, DirElementModel,
    query_model, key_value_model, key_model, value_model, element_model, tuple_model, dir_model,
    dir_element_model, value_type_text, lemma_tuple_model,
};
use crate::text::{hex_chars, hex_encode, dec_chars, int_dec_chars, u64_dec_string, i64_dec_string};
use crate::values::{Endianness, spec_u64_bytes, u64_bytes};

verus! {

/// The text of a variable's type constraints, joined by `|`.
pub open spec fn fmt_variable(types: Seq<ValueType>) -> Seq<char>
    decreases types.len(),
{
    if types.len() == 0 {
        Seq::empty()
    } else if types.len() == 1 {
        value_type_text(types[0])
    } else {
        fmt_variable(types.drop_last()) + "|"@ + value_type_text(types.last())
    }
}

/// The text of one directory element: `/segment` or `/<constraints>`.
pub open spec fn fmt_dir_element(e: DirElementModel) -> Seq<char> {
    match e {
        DirElementModel::String(s) => "/"@ + s,
        DirElementModel::Variable(types) => "/<"@ + fmt_variable(types) + ">"@,
    }
}

/// The text of a directory path.
pub open spec fn fmt_directory(d: Seq<DirElementModel>) -> Seq<char>
    decreases d.len(),
{
    if d.len() == 0 {
        Seq::empty()
    } else {
        fmt_directory(d.drop_last()) + fmt_dir_element(d.last())
    }
}

/// The canonical hyphenated text of a UUID's sixteen bytes.
pub open spec fn fmt_uuid(b: Seq<u8>) -> Seq<char> {
    hex_chars(b.subrange(0, 4)) + "-"@ + hex_chars(b.subrange(4, 6)) + "-"@ + hex_chars(
        b.subrange(6, 8),
    ) + "-"@ + hex_chars(b.subrange(8, 10)) + "-"@ + hex_chars(b.subrange(10, 16))
}

/// The text of one tuple element.
pub open spec fn fmt_element(e: ElementModel) -> Seq<char>
    decreases e, 0int,
{
    match e {
        ElementModel::Tuple(t) => fmt_tuple(t),
        ElementModel::Nil => "nil"@,
        ElementModel::Int(i) => int_dec_chars(i as int),
        ElementModel::Uint(u) => dec_chars(u as nat),
        ElementModel::Bool(b) => if b {
            "true"@
        } else {
            "false"@
        },
        ElementModel::Float(bits) => "#float:"@ + hex_chars(
            spec_u64_bytes(bits, Endianness::Big),
        ),
        ElementModel::String(s) => "\""@ + s + "\""@,
        ElementModel::Uuid(u) => fmt_uuid(u),
        ElementModel::Bytes(b) => "0x"@ + hex_chars(b),
        ElementModel::Variable(types) => "<"@ + fmt_variable(types) + ">"@,
        ElementModel::MaybeMore => "..."@,
        ElementModel::VStamp { .. } => "#vstamp"@,
        ElementModel::VStampFuture(_) => "#vstamp_future"@,
    }
}

/// The texts of a tuple's elements, joined by commas.
pub open spec fn fmt_elements(t: Seq<ElementModel>) -> Seq<char>
    decreases t, 1int,
{
    if t.len() == 0 {
        Seq::empty()
    } else if t.len() == 1 {
        fmt_element(t[0])
    } else {
        fmt_elements(t.drop_last()) + ","@ + fmt_element(t.last())
    }
}

/// The text of a tuple: its elements, joined by commas, in parentheses.
pub open spec fn fmt_tuple(t: Seq<ElementModel>) -> Seq<char>
    decreases t, 2int,
{
    "("@ + fmt_elements(t) + ")"@
}

/// The text of a value.
pub open spec fn fmt_value(v: ValueModel) -> Seq<char> {
    match v {
        ValueModel::Tuple(t) => fmt_tuple(t),
        ValueModel::Nil => "nil"@,
        ValueModel::Int(i) => int_dec_chars(i as int),
        ValueModel::Uint(u) => dec_chars(u as nat),
        ValueModel::Bool(b) => if b {
            "true"@
        } else {
            "false"@
        },
        ValueModel::Float(bits) => "#float:"@ + hex_chars(spec_u64_bytes(bits, Endianness::Big)),
        ValueModel::String(s) => "\""@ + s + "\""@,
        ValueModel::Uuid(u) => fmt_uuid(u),
        ValueModel::Bytes(b) => "0x"@ + hex_chars(b),
        ValueModel::Variable(types) => "<"@ + fmt_variable(types) + ">"@,
        ValueModel::Clear => "clear"@,
        ValueModel::VStamp { .. } => "#vstamp"@,
        ValueModel::VStampFuture(_) => "#vstamp_future"@,
    }
}

/// The text of a key: its directory path followed by its tuple.
pub open spec fn fmt_key(k: KeyModel) -> Seq<char> {
    fmt_directory(k.directory) + fmt_tuple(k.tuple)
}

/// The text of a key-value: `key=value`.
pub open spec fn fmt_key_value(kv: KeyValueModel) -> Seq<char> {
    fmt_key(kv.key) + "="@ + fmt_value(kv.value)
}

/// The text of a query.
pub open spec fn fmt_query(q: QueryModel) -> Seq<char> {
    match q {
        QueryModel::KeyValue(kv) => fmt_key_value(kv),
        QueryModel::Key(k) => fmt_key(k),
        QueryModel::Directory(d) => fmt_directory(d),
    }
}

/// Format the type constraints of a variable, joined by `|`.
pub fn format_variable(var: &Variable) -> (r: String)
    ensures
        r@ == fmt_variable(var.types@),
{
    if var.types.len() == 0 {
        return String::new();
    }
    let mut s = var.types[0].text();
    let mut i: usize = 1;
    while i < var.types.len()
        invariant
            1 <= i <= var.types.len(),
            s@ == fmt_variable(var.types@.subrange(0, i as int)),
        decreases var.types.len() - i,
    {
        let ghost prefix = var.types@.subrange(0, i as int);
        s.append("|");
        let t = var.types[i].text();
        s.append(t.as_str());
        proof {
            let next = var.types@.subrange(0, i + 1);
            assert(next.drop_last() =~= prefix);
            assert(next.last() == var.types@[i as int]);
            assert(s@ =~= fmt_variable(next));
        }
        i = i + 1;
    }
    proof {
        assert(var.types@.subrange(0, var.types@.len() as int) =~= var.types@);
    }
    s
}

/// Format a directory path.
pub fn format_directory(dir: &Directory) -> (r: String)
    ensures
        r@ == fmt_directory(dir_model(dir@)),
{
    let mut s = String::new();
    let mut i: usize = 0;
    while i < dir.len()
        invariant
            i <= dir.len(),
            s@ == fmt_directory(dir_model(dir@.subrange(0, i as int))),
        decreases dir.len() - i,
    {
        let ghost prefix = dir@.subrange(0, i as int);
        match &dir[i] {
            DirElement::String(seg) => {
                s.append("/");
                s.append(seg.as_str());
            },
            DirElement::Variable(v) => {
                s.append("/<");
                let t = format_variable(v);
                s.append(t.as_str());
                s.append(">");
            },
        }
        proof {
            let next = dir@.subrange(0, i + 1);
            assert(next.drop_last() =~= prefix);
            assert(next.last() == dir@[i as int]);
            assert(dir_model(next).drop_last() =~= dir_model(prefix));
            assert(dir_model(next).last() == dir_element_model(dir@[i as int]));
            assert(s@ =~= fmt_directory(dir_model(next)));
        }
        i = i + 1;
    }
    proof {
        assert(dir@.subrange(0, dir@.len() as int) =~= dir@);
    }
    s
}

/// The canonical hyphenated text of a UUID.
fn uuid_text(u: &[u8; 16]) -> (r: String)
    ensures
        r@ == fmt_uuid(u@),
{
    let mut g0: Vec<u8> = Vec::new();
    let mut g1: Vec<u8> = Vec::new();
    let mut g2: Vec<u8> = Vec::new();
    let mut g3: Vec<u8> = Vec::new();
    let mut g4: Vec<u8> = Vec::new();
    let mut i: usize = 0;
    while i < 4
        invariant
            i <= 4,
            g0@ =~= u@.subrange(0, i as int),
        decreases 4 - i,
    {
        g0.push(u[i]);
        i = i + 1;
    }
    let mut i: usize = 4;
    while i < 6
        invariant
            4 <= i <= 6,
            g1@ =~= u@.subrange(4, i as int),
        decreases 6 - i,
    {
        g1.push(u[i]);
        i = i + 1;
    }
    let mut i: usize = 6;
    while i < 8
        invariant
            6 <= i <= 8,
            g2@ =~= u@.subrange(6, i as int),
        decreases 8 - i,
    {
        g2.push(u[i]);
        i = i + 1;
    }
    let mut i: usize = 8;
    while i < 10
        invariant
            8 <= i <= 10,
            g3@ =~= u@.subrange(8, i as int),
        decreases 10 - i,
    {
        g3.push(u[i]);
        i = i + 1;
    }
    let mut i: usize = 10;
    while i < 16
        invariant
            10 <= i <= 16,
            g4@ =~= u@.subrange(10, i as int),
        decreases 16 - i,
    {
        g4.push(u[i]);
        i = i + 1;
    }
    let mut s = hex_encode(g0.as_slice());
    s.append("-");
    let h1 = hex_encode(g1.as_slice());
    s.append(h1.as_str());
    s.append("-");
    let h2 = hex_encode(g2.as_slice());
    s.append(h2.as_str());
    s.append("-");
    let h3 = hex_encode(g3.as_slice());
    s.append(h3.as_str());
    s.append("-");
    let h4 = hex_encode(g4.as_slice());
    s.append(h4.as_str());
    proof {
        assert(s@ =~= fmt_uuid(u@));
    }
    s
}

/// Format one tuple element.
pub fn format_tup_element(elem: &TupElement) -> (r: String)
    ensures
        r@ == fmt_element(element_model(*elem)),
    decreases elem, 0int,
{
    match elem {
        TupElement::Tuple(t) => format_tuple(t),
        TupElement::Nil => String::from_str("nil"),
        TupElement::Int(i) => i64_dec_string(*i),
        TupElement::Uint(u) => u64_dec_string(*u),
        TupElement::Bool(b) => {
            if *b {
                String::from_str("true")
            } else {
                String::from_str("false")
            }
        },
        TupElement::Float(bits) => {
            let mut s = String::from_str("#float:");
            let bytes = u64_bytes(*bits, Endianness::Big);
            let h = hex_encode(bytes.as_slice());
            s.append(h.as_str());
            proof {
                assert(s@ =~= fmt_element(element_model(*elem)));
            }
            s
        },
        TupElement::String(v) => {
            let mut s = String::from_str("\"");
            s.append(v.as_str());
            s.append("\"");
            proof {
                assert(s@ =~= "\""@ + v@ + "\""@);
            }
            s
        },
        TupElement::Uuid(u) => uuid_text(u),
        TupElement::Bytes(b) => {
            let mut s = String::from_str("0x");
            let h = hex_encode(b.as_slice());
            s.append(h.as_str());
            s
        },
        TupElement::Variable(v) => {
            let mut s = String::from_str("<");
            let t = format_variable(v);
            s.append(t.as_str());
            s.append(">");
            proof {
                assert(s@ =~= "<"@ + fmt_variable(v.types@) + ">"@);
            }
            s
        },
        TupElement::MaybeMore => String::from_str("..."),
        TupElement::VStamp(_) => String::from_str("#vstamp"),
        TupElement::VStampFuture(_) => String::from_str("#vstamp_future"),
    }
}

/// Format a tuple: its elements, joined by commas, in parentheses.
pub fn format_tuple(tup: &Tuple) -> (r: String)
    ensures
        r@ == fmt_tuple(tuple_model(tup@)),
    decreases tup@, 1int,
{
    let mut body = String::new();
    let mut i: usize = 0;
    while i < tup.len()
        invariant
            i <= tup.len(),
            body@ == fmt_elements(tuple_model(tup@.subrange(0, i as int))),
        decreases tup.len() - i,
    {
        let ghost prefix = tup@.subrange(0, i as int);
        proof {
            lemma_tuple_model(tup@);
            lemma_tuple_model(prefix);
            assert(decreases_to!(tup@ => tup@[i as int]));
        }
        if i > 0 {
            body.append(",");
        }
        let t = format_tup_element(&tup[i]);
        body.append(t.as_str());
        proof {
            let next = tup@.subrange(0, i + 1);
            assert(next.drop_last() =~= prefix);
            assert(next.last() == tup@[i as int]);
            assert(tuple_model(next).drop_last() =~= tuple_model(prefix));
            assert(tuple_model(next).last() == element_model(tup@[i as int]));
            assert(body@ =~= fmt_elements(tuple_model(next)));
        }
        i = i + 1;
    }
    proof {
        assert(tup@.subrange(0, tup@.len() as int) =~= tup@);
    }
    let mut s = String::from_str("(");
    s.append(body.as_str());
    s.append(")");
    proof {
        assert(s@ =~= "("@ + fmt_elements(tuple_model(tup@)) + ")"@);
    }
    s
}

/// Format a value.
pub fn format_value(val: &Value) -> (r: String)
    ensures
        r@ == fmt_value(value_model(*val)),
{
    match val {
        Value::Tuple(t) => format_tuple(t),
        Value::Nil => String::from_str("nil"),
        Value::Int(i) => i64_dec_string(*i),
        Value::Uint(u) => u64_dec_string(*u),
        Value::Bool(b) => {
            if *b {
                String::from_str("true")
            } else {
                String::from_str("false")
            }
        },
        Value::Float(bits) => {
            let mut s = String::from_str("#float:");
            let bytes = u64_bytes(*bits, Endianness::Big);
            let h = hex_encode(bytes.as_slice());
            s.append(h.as_str());
            proof {
                assert(s@ =~= fmt_value(value_model(*val)));
            }
            s
        },
        Value::String(v) => {
            let mut s = String::from_str("\"");
            s.append(v.as_str());
            s.append("\"");
            proof {
                assert(s@ =~= "\""@ + v@ + "\""@);
            }
            s
        },
        Value::Uuid(u) => uuid_text(u),
        Value::Bytes(b) => {
            let mut s = String::from_str("0x");
            let h = hex_encode(b.as_slice());
            s.append(h.as_str());
            s
        },
        Value::Variable(v) => {
            let mut s = String::from_str("<");
            let t = format_variable(v);
            s.append(t.as_str());
            s.append(">");
            proof {
                assert(s@ =~= "<"@ + fmt_variable(v.types@) + ">"@);
            }
            s
        },
        Value::Clear => String::from_str("clear"),
        Value::VStamp(_) => String::from_str("#vstamp"),
        Value::VStampFuture(_) => String::from_str("#vstamp_future"),
    }
}

/// Format a key: its directory path followed by its tuple.
pub fn format_key(key: &Key) -> (r: String)
    ensures
        r@ == fmt_key(key_model(*key)),
{
    let mut s = format_directory(&key.directory);
    let t = format_tuple(&key.tuple);
    s.append(t.as_str());
    s
}

/// Format a key-value: `key=value`.
pub fn format_keyvalue(kv: &KeyValue) -> (r: String)
    ensures
        r@ == fmt_key_value(key_value_model(*kv)),
{
    let mut s = format_key(&kv.key);
    s.append("=");
    let v = format_value(&kv.value);
    s.append(v.as_str());
    proof {
        assert(s@ =~= fmt_key(key_model(kv.key)) + "="@ + fmt_value(value_model(kv.value)));
    }
    s
}

/// Format a query as a query string.
pub fn format(query: &Query) -> (r: String)
    ensures
        r@ == fmt_query(query_model(*query)),
{
    match query {
        Query::KeyValue(kv) => format_keyvalue(kv),
        Query::Key(key) => format_key(key),
        Query::Directory(dir) => format_directory(dir),
    }
}

} // verus!
