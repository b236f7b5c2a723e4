//! Query classification.
//!
//! A `KeyValue` is folded into a bag of structural attributes (how many
//! future versionstamps it holds, whether it holds a variable or tail
//! wildcard, a clear marker, a nil) and those attributes decide which of the
//! operation classes the query represents.

use vstd::prelude::*;

use crate::keyval::{
    KeyValue, Value, DirElement, TupElement, Directory, Tuple,
    KeyValueModel, ValueModel, ElementModel, DirElementModel,
    key_value_model, value_model, element_model, tuple_model, dir_model,
};
use crate::text::{dec_chars, u64_dec_string};

verus! {

/// Classification of a `KeyValue` based on its structure and contents.
#[derive(Debug, Clone, PartialEq, Eq, Hash)]
pub enum Class {
    /// KeyValue with no Variable, MaybeMore, Clear, or VStampFuture.
    /// Can be used for set operations or returned by get operations.
    Constant,
    /// Constant KeyValue with a VStampFuture in the key.
    /// Can only be used for set operations.
    VStampKey,
    /// Constant KeyValue with a VStampFuture in the value.
    /// Can only be used for set operations.
    VStampVal,
    /// KeyValue with Clear as its value and no Variable, MaybeMore, or VStampFuture.
    /// Used for clear/delete operations.
    Clear,
    /// KeyValue with Variable as its value but no Variable or MaybeMore in its key.
    /// Returns a single KeyValue.
    ReadSingle,
    /// KeyValue with Variable or MaybeMore in its key.
    /// Returns multiple KeyValues.
    ReadRange,
    /// Invalid KeyValue with conflicting attributes.
    Invalid(String),
}

/// Model of a classification: the invalid case carries the characters of its
/// reason.
#[verifier::ext_equal]
pub enum ClassModel {
    Constant,
    VStampKey,
    VStampVal,
    Clear,
    ReadSingle,
    ReadRange,
    Invalid(Seq<char>),
}

pub open spec fn class_model(c: Class) -> ClassModel {
    match c {
        Class::Constant => ClassModel::Constant,
        Class::VStampKey => ClassModel::VStampKey,
        Class::VStampVal => ClassModel::VStampVal,
        Class::Clear => ClassModel::Clear,
        Class::ReadSingle => ClassModel::ReadSingle,
        Class::ReadRange => ClassModel::ReadRange,
        Class::Invalid(m) => ClassModel::Invalid(m@),
    }
}

impl Class {
    /// The display text of this classification.
    pub fn text(&self) -> (r: String)
        ensures
            r@ == class_text(class_model(*self)),
    {
        match self {
            Class::Constant => String::from_str("constant"),
            Class::VStampKey => String::from_str("vstampkey"),
            Class::VStampVal => String::from_str("vstampval"),
            Class::Clear => String::from_str("clear"),
            Class::ReadSingle => String::from_str("single"),
            Class::ReadRange => String::from_str("range"),
            Class::Invalid(msg) => {
                let mut s = String::from_str("invalid[");
                s.append(msg.as_str());
                s.append("]");
                proof {
                    assert(s@ =~= "invalid["@ + msg@ + "]"@);
                }
                s
            },
        }
    }
}

/// The display text of a classification.
pub open spec fn class_text(c: ClassModel) -> Seq<char> {
    match c {
        ClassModel::Constant => "constant"@,
        ClassModel::VStampKey => "vstampkey"@,
        ClassModel::VStampVal => "vstampval"@,
        ClassModel::Clear => "clear"@,
        ClassModel::ReadSingle => "single"@,
        ClassModel::ReadRange => "range"@,
        ClassModel::Invalid(m) => "invalid["@ + m + "]"@,
    }
}

/// Attributes describing the characteristics of a KeyValue relevant to
/// classification.
#[derive(Debug, Clone, Copy, PartialEq, Eq, Structural)]
pub struct Attributes {
    /// How many future versionstamps the subtree holds. The count saturates
    /// at `usize::MAX` instead of overflowing.
    pub vstamp_futures: usize,
    /// Whether the subtree holds a variable or a tail wildcard.
    pub has_variable: bool,
    /// Whether the subtree holds a clear marker.
    pub has_clear: bool,
    /// Whether the subtree holds a nil marker left by an unset node. This
    /// attribute is vestigial: it guards against uninitialized tree nodes
    /// that this data model cannot express, so no synthesizer here ever
    /// sets it and the "nil" mutual-exclusion rule never fires. It is kept
    /// so that the record, the merge, and the invalid-reason format state
    /// the full rule set.
    pub has_nil: bool,
}

/// The attributes of an empty subtree.
pub open spec fn empty_attributes() -> Attributes {
    Attributes { vstamp_futures: 0, has_variable: false, has_clear: false, has_nil: false }
}

impl Default for Attributes {
    fn default() -> (r: Self)
        ensures
            r == empty_attributes(),
    {
        Attributes { vstamp_futures: 0, has_variable: false, has_clear: false, has_nil: false }
    }
}

/// Addition on `usize` that stops at `usize::MAX` instead of overflowing.
pub open spec fn sat_add(a: usize, b: usize) -> usize {
    if a + b > usize::MAX {
        usize::MAX
    } else {
        (a + b) as usize
    }
}

/// Pointwise merge of two attribute records: counts add (saturating),
/// booleans or.
pub open spec fn spec_merge(a: Attributes, b: Attributes) -> Attributes {
    Attributes {
        vstamp_futures: sat_add(a.vstamp_futures, b.vstamp_futures),
        has_variable: a.has_variable || b.has_variable,
        has_clear: a.has_clear || b.has_clear,
        has_nil: a.has_nil || b.has_nil,
    }
}

impl Attributes {
    /// Merge attributes of parts to infer attributes of the whole.
    pub fn merge(&self, other: &Attributes) -> (r: Attributes)
        ensures
            r == spec_merge(*self, *other),
    {
        let vstamp_futures: usize = if self.vstamp_futures > usize::MAX - other.vstamp_futures {
            usize::MAX
        } else {
            self.vstamp_futures + other.vstamp_futures
        };
        Attributes {
            vstamp_futures,
            has_variable: self.has_variable || other.has_variable,
            has_clear: self.has_clear || other.has_clear,
            has_nil: self.has_nil || other.has_nil,
        }
    }
}

/// Attributes of one directory element.
pub open spec fn attrs_of_dir_element(e: DirElementModel) -> Attributes {
    match e {
        DirElementModel::String(_) => empty_attributes(),
        DirElementModel::Variable(_) => Attributes {
            has_variable: true,
            ..empty_attributes()
        },
    }
}

/// Attributes of a directory, merged left to right.
pub open spec fn attrs_of_dir(d: Seq<DirElementModel>) -> Attributes
    decreases d.len(),
{
    if d.len() == 0 {
        empty_attributes()
    } else {
        spec_merge(attrs_of_dir(d.drop_last()), attrs_of_dir_element(d.last()))
    }
}

/// Attributes of one tuple element.
pub open spec fn attrs_of_element(e: ElementModel) -> Attributes
    decreases e,
{
    match e {
        ElementModel::Tuple(t) => attrs_of_tuple(t),
        ElementModel::Variable(_) => Attributes { has_variable: true, ..empty_attributes() },
        ElementModel::MaybeMore => Attributes { has_variable: true, ..empty_attributes() },
        ElementModel::VStampFuture(_) => Attributes { vstamp_futures: 1, ..empty_attributes() },
        _ => empty_attributes(),
    }
}

/// Attributes of a tuple, merged left to right.
pub open spec fn attrs_of_tuple(t: Seq<ElementModel>) -> Attributes
    decreases t,
{
    if t.len() == 0 {
        empty_attributes()
    } else {
        spec_merge(attrs_of_tuple(t.drop_last()), attrs_of_element(t.last()))
    }
}

/// Attributes of a value.
pub open spec fn attrs_of_value(v: ValueModel) -> Attributes {
    match v {
        ValueModel::Tuple(t) => attrs_of_tuple(t),
        ValueModel::Variable(_) => Attributes { has_variable: true, ..empty_attributes() },
        ValueModel::Clear => Attributes { has_clear: true, ..empty_attributes() },
        ValueModel::VStampFuture(_) => Attributes { vstamp_futures: 1, ..empty_attributes() },
        _ => empty_attributes(),
    }
}

/// Get attributes of a directory.
pub fn get_attributes_of_dir(dir: &Directory) -> (r: Attributes)
    ensures
        r == attrs_of_dir(dir_model(dir@)),
{
    let mut attr = Attributes::default();
    let mut i: usize = 0;
    while i < dir.len()
        invariant
            i <= dir.len(),
            attr == attrs_of_dir(dir_model(dir@.subrange(0, i as int))),
        decreases dir.len() - i,
    {
        let ghost prefix = dir@.subrange(0, i as int);
        let sub_attr = match &dir[i] {
            DirElement::String(_) => Attributes::default(),
            DirElement::Variable(_) => Attributes {
                has_variable: true,
                ..Attributes::default()
            },
        };
        attr = attr.merge(&sub_attr);
        proof {
            let next = dir@.subrange(0, i + 1);
            assert(next.drop_last() =~= prefix);
            assert(next.last() == dir@[i as int]);
            assert(dir_model(next).drop_last() =~= dir_model(prefix));
        }
        i = i + 1;
    }
    proof {
        assert(dir@.subrange(0, dir@.len() as int) =~= dir@);
    }
    attr
}

/// Get attributes of a tuple.
pub fn get_attributes_of_tup(tup: &Tuple) -> (r: Attributes)
    ensures
        r == attrs_of_tuple(tuple_model(tup@)),
    decreases tup@,
{
    let mut attr = Attributes::default();
    let mut i: usize = 0;
    while i < tup.len()
        invariant
            i <= tup.len(),
            attr == attrs_of_tuple(tuple_model(tup@.subrange(0, i as int))),
        decreases tup.len() - i,
    {
        let ghost prefix = tup@.subrange(0, i as int);
        let sub_attr = match &tup[i] {
            TupElement::Tuple(t) => {
                proof {
                    assert(decreases_to!(tup@ => tup@[i as int]));
                }
                get_attributes_of_tup(t)
            },
            TupElement::Variable(_) => Attributes {
                has_variable: true,
                ..Attributes::default()
            },
            TupElement::MaybeMore => Attributes {
                has_variable: true,
                ..Attributes::default()
            },
            TupElement::VStampFuture(_) => Attributes {
                vstamp_futures: 1,
                ..Attributes::default()
            },
            _ => Attributes::default(),
        };
        proof {
            assert(sub_attr == attrs_of_element(element_model(tup@[i as int])));
        }
        attr = attr.merge(&sub_attr);
        proof {
            let next = tup@.subrange(0, i + 1);
            assert(next.drop_last() =~= prefix);
            assert(next.last() == tup@[i as int]);
            assert(tuple_model(next).drop_last() =~= tuple_model(prefix));
            assert(tuple_model(next).last() == element_model(tup@[i as int]));
            assert(attrs_of_tuple(tuple_model(next)) == spec_merge(
                attrs_of_tuple(tuple_model(prefix)),
                attrs_of_element(element_model(tup@[i as int])),
            ));
        }
        i = i + 1;
    }
    proof {
        assert(tup@.subrange(0, tup@.len() as int) =~= tup@);
    }
    attr
}

/// Get attributes of a value.
pub fn get_attributes_of_val(val: &Value) -> (r: Attributes)
    ensures
        r == attrs_of_value(value_model(*val)),
{
    match val {
        Value::Tuple(t) => get_attributes_of_tup(t),
        Value::Variable(_) => Attributes { has_variable: true, ..Attributes::default() },
        Value::Clear => Attributes { has_clear: true, ..Attributes::default() },
        Value::VStampFuture(_) => Attributes { vstamp_futures: 1, ..Attributes::default() },
        _ => Attributes::default(),
    }
}

/// The reason text of an invalid classification: the attributes that clash,
/// joined by commas.
pub open spec fn invalid_message(a: Attributes) -> Seq<char> {
    join_comma(invalid_parts(a))
}

/// The parts of an invalid reason, in a fixed order.
pub open spec fn invalid_parts(a: Attributes) -> Seq<Seq<char>> {
    let p0: Seq<Seq<char>> = if a.vstamp_futures > 0 {
        seq!["vstamps:"@ + dec_chars(a.vstamp_futures as nat)]
    } else {
        Seq::empty()
    };
    let p1: Seq<Seq<char>> = if a.has_variable {
        seq!["var"@]
    } else {
        Seq::empty()
    };
    let p2: Seq<Seq<char>> = if a.has_clear {
        seq!["clear"@]
    } else {
        Seq::empty()
    };
    let p3: Seq<Seq<char>> = if a.has_nil {
        seq!["nil"@]
    } else {
        Seq::empty()
    };
    p0 + p1 + p2 + p3
}

/// Character sequences joined by commas.
pub open spec fn join_comma(parts: Seq<Seq<char>>) -> Seq<char>
    decreases parts.len(),
{
    if parts.len() == 0 {
        Seq::empty()
    } else if parts.len() == 1 {
        parts[0]
    } else {
        join_comma(parts.drop_last()) + ","@ + parts.last()
    }
}

/// Create an Invalid class naming the attributes that clash.
pub fn invalid_class(attr: &Attributes) -> (r: Class)
    ensures
        class_model(r) == ClassModel::Invalid(invalid_message(*attr)),
{
    let mut parts: Vec<String> = Vec::new();

    if attr.vstamp_futures > 0 {
        let mut p = String::from_str("vstamps:");
        let count = u64_dec_string(attr.vstamp_futures as u64);
        p.append(count.as_str());
        parts.push(p);
    }
    if attr.has_variable {
        parts.push(String::from_str("var"));
    }
    if attr.has_clear {
        parts.push(String::from_str("clear"));
    }
    if attr.has_nil {
        parts.push(String::from_str("nil"));
    }
    proof {
        assert(parts.deep_view() =~~= invalid_parts(*attr));
    }

    let mut msg = String::new();
    let mut i: usize = 0;
    while i < parts.len()
        invariant
            i <= parts.len(),
            msg@ == join_comma(parts.deep_view().subrange(0, i as int)),
            parts.deep_view() =~~= invalid_parts(*attr),
        decreases parts.len() - i,
    {
        let ghost prefix = parts.deep_view().subrange(0, i as int);
        if i > 0 {
            msg.append(",");
        }
        msg.append(parts[i].as_str());
        proof {
            let next = parts.deep_view().subrange(0, i + 1);
            assert(next.drop_last() =~= prefix);
            assert(next.last() == parts.deep_view()[i as int]);
        }
        i = i + 1;
    }
    proof {
        assert(parts.deep_view().subrange(0, parts.deep_view().len() as int) =~= parts.deep_view());
    }
    Class::Invalid(msg)
}

/// How many of the three exclusive attributes are present.
pub open spec fn clash_count(a: Attributes) -> int {
    (if a.vstamp_futures > 0 { 1int } else { 0 })
        + (if a.has_variable { 1int } else { 0 })
        + (if a.has_clear { 1int } else { 0 })
}

/// The attributes of a key-value's key.
pub open spec fn key_attributes(kv: KeyValueModel) -> Attributes {
    spec_merge(attrs_of_dir(kv.key.directory), attrs_of_tuple(kv.key.tuple))
}

/// The attributes of a whole key-value.
pub open spec fn kv_attributes(kv: KeyValueModel) -> Attributes {
    spec_merge(key_attributes(kv), attrs_of_value(kv.value))
}

/// Whether a key-value violates one of the three mutual-exclusion rules:
/// it holds a nil, more than one future versionstamp, or more than one of
/// {future versionstamp, variable, clear}.
pub open spec fn is_invalid(kv: KeyValueModel) -> bool {
    ||| kv_attributes(kv).has_nil
    ||| kv_attributes(kv).vstamp_futures > 1
    ||| clash_count(kv_attributes(kv)) > 1
}

/// The classification of a key-value.
pub open spec fn spec_classify(kv: KeyValueModel) -> ClassModel {
    let key_attr = key_attributes(kv);
    let kv_attr = kv_attributes(kv);
    if is_invalid(kv) {
        ClassModel::Invalid(invalid_message(kv_attr))
    } else if key_attr.has_variable {
        ClassModel::ReadRange
    } else if kv_attr.has_variable {
        ClassModel::ReadSingle
    } else if kv_attr.vstamp_futures > 0 {
        if key_attr.vstamp_futures > 0 {
            ClassModel::VStampKey
        } else {
            ClassModel::VStampVal
        }
    } else if kv_attr.has_clear {
        ClassModel::Clear
    } else {
        ClassModel::Constant
    }
}

/// Classify a KeyValue based on its structure.
pub fn classify(kv: &KeyValue) -> (r: Class)
    ensures
        class_model(r) == spec_classify(key_value_model(*kv)),
{
    let dir_attr = get_attributes_of_dir(&kv.key.directory);
    let key_attr = dir_attr.merge(&get_attributes_of_tup(&kv.key.tuple));
    let kv_attr = key_attr.merge(&get_attributes_of_val(&kv.value));

    // A key-value should never contain a nil left by an unset node.
    if kv_attr.has_nil {
        return invalid_class(&kv_attr);
    }

    // A key-value should contain at most one future versionstamp.
    if kv_attr.vstamp_futures > 1 {
        return invalid_class(&kv_attr);
    }

    // At most one of {future versionstamp, variable, clear} may be present.
    let mut count: u8 = 0;
    if kv_attr.vstamp_futures > 0 {
        count = count + 1;
    }
    if kv_attr.has_variable {
        count = count + 1;
    }
    if kv_attr.has_clear {
        count = count + 1;
    }
    if count > 1 {
        return invalid_class(&kv_attr);
    }

    if key_attr.has_variable {
        Class::ReadRange
    } else if kv_attr.has_variable {
        Class::ReadSingle
    } else if kv_attr.vstamp_futures > 0 {
        if key_attr.vstamp_futures > 0 {
            Class::VStampKey
        } else {
            Class::VStampVal
        }
    } else if kv_attr.has_clear {
        Class::Clear
    } else {
        Class::Constant
    }
}

/// Classification is total and assigns `Invalid` exactly when one of the
/// three mutual-exclusion rules is violated: a nil is present, more than one
/// future versionstamp is present, or more than one of {future versionstamp,
/// variable, clear} is present.
pub proof fn lemma_classify_invalid_iff(kv: KeyValueModel)
    ensures
        spec_classify(kv) is Invalid <==> is_invalid(kv),
        spec_classify(kv) matches ClassModel::Invalid(m) ==> m == invalid_message(
            kv_attributes(kv),
        ),
{
}

/// The decision order among the valid classes is strict: a hole in the key
/// wins over a hole in the value, which wins over a future versionstamp,
/// which wins over a clear marker; a fully concrete query is a write. In
/// particular, when both the key and the value hold a variable (a shape the
/// validity rules themselves never admit twice over), the query still reads
/// as a range.
pub proof fn lemma_classify_priority(kv: KeyValueModel)
    ensures
        !is_invalid(kv) && key_attributes(kv).has_variable ==> spec_classify(kv)
            == ClassModel::ReadRange,
        !is_invalid(kv) && !key_attributes(kv).has_variable && kv_attributes(kv).has_variable
            ==> spec_classify(kv) == ClassModel::ReadSingle,
        !is_invalid(kv) && !kv_attributes(kv).has_variable && kv_attributes(kv).vstamp_futures > 0
            && key_attributes(kv).vstamp_futures > 0 ==> spec_classify(kv) == ClassModel::VStampKey,
        !is_invalid(kv) && !kv_attributes(kv).has_variable && kv_attributes(kv).vstamp_futures > 0
            && key_attributes(kv).vstamp_futures == 0 ==> spec_classify(kv)
            == ClassModel::VStampVal,
        !is_invalid(kv) && !kv_attributes(kv).has_variable && kv_attributes(kv).vstamp_futures == 0
            && kv_attributes(kv).has_clear ==> spec_classify(kv) == ClassModel::Clear,
        !is_invalid(kv) && !kv_attributes(kv).has_variable && kv_attributes(kv).vstamp_futures == 0
            && !kv_attributes(kv).has_clear ==> spec_classify(kv) == ClassModel::Constant,
        key_attributes(kv).has_variable && attrs_of_value(kv.value).has_variable && !is_invalid(kv)
            ==> spec_classify(kv) == ClassModel::ReadRange,
{
    assert(kv_attributes(kv).has_variable ==> !is_invalid(kv) ==> !kv_attributes(kv).has_clear
        && kv_attributes(kv).vstamp_futures == 0);
}

/// No directory element carries a clear marker.
proof fn lemma_dir_attrs_no_clear(d: Seq<DirElementModel>)
    ensures
        !attrs_of_dir(d).has_clear,
    decreases d.len(),
{
    if d.len() > 0 {
        lemma_dir_attrs_no_clear(d.drop_last());
    }
}

/// No tuple element carries a clear marker: the clear marker exists only in
/// value position.
proof fn lemma_element_attrs_no_clear(e: ElementModel)
    ensures
        !attrs_of_element(e).has_clear,
    decreases e, 0int,
{
    match e {
        ElementModel::Tuple(t) => lemma_tuple_attrs_no_clear(t),
        _ => {},
    }
}

proof fn lemma_tuple_attrs_no_clear(t: Seq<ElementModel>)
    ensures
        !attrs_of_tuple(t).has_clear,
    decreases t, 1int,
{
    if t.len() > 0 {
        lemma_tuple_attrs_no_clear(t.drop_last());
        lemma_element_attrs_no_clear(t.last());
    }
}

/// A key-only query, read as a key-value whose value is an unconstrained
/// variable, always classifies as a read: a range read when the key itself
/// holds a hole, a single read otherwise; it is invalid exactly when the key
/// holds a future versionstamp (which may not mix with the variable) or a
/// nil.
pub proof fn lemma_key_query_reads(kv: KeyValueModel)
    requires
        kv.value == ValueModel::Variable(Seq::<crate::keyval::ValueType>::empty()),
    ensures
        is_invalid(kv) <==> (kv_attributes(kv).vstamp_futures > 0 || kv_attributes(kv).has_nil),
        !is_invalid(kv) && key_attributes(kv).has_variable ==> spec_classify(kv)
            == ClassModel::ReadRange,
        !is_invalid(kv) && !key_attributes(kv).has_variable ==> spec_classify(kv)
            == ClassModel::ReadSingle,
{
    assert(attrs_of_value(kv.value) == Attributes {
        has_variable: true,
        ..empty_attributes()
    });
    assert(kv_attributes(kv).has_variable);
    lemma_dir_attrs_no_clear(kv.key.directory);
    lemma_tuple_attrs_no_clear(kv.key.tuple);
    assert(!kv_attributes(kv).has_clear);
}

} // verus!
