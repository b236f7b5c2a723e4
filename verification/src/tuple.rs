//! Tuple comparison and matching.
//!
//! A candidate tuple is compared against a schema tuple that may contain
//! variables and a tail wildcard. A match yields `None`; a mismatch yields
//! the index path to the first mismatching element.

use vstd::prelude::*;

use crate::keyval::{
    TupElement, Tuple, Variable, ValueType, ElementModel, element_model, tuple_model,
    lemma_tuple_model,
};

verus! {

broadcast use lemma_tuple_model;

/// Whether an element is of the given value type.
pub open spec fn type_matches(e: ElementModel, t: ValueType) -> bool {
    match t {
        ValueType::Any => true,
        ValueType::Int => e is Int,
        ValueType::Uint => e is Uint,
        ValueType::Bool => e is Bool,
        ValueType::Float => e is Float,
        ValueType::String => e is String,
        ValueType::Bytes => e is Bytes,
        ValueType::Uuid => e is Uuid,
        ValueType::Tuple => e is Tuple,
        ValueType::VStamp => e is VStamp,
    }
}

/// Whether a variable with the given type constraints admits an element.
/// An empty constraint list admits everything.
pub open spec fn variable_admits(types: Seq<ValueType>, e: ElementModel) -> bool {
    types.len() == 0 || exists|j: int| 0 <= j < types.len() && type_matches(e, #[trigger] types[j])
}

/// Whether one schema element admits one candidate element: a nested tuple
/// compares recursively, a variable checks its type constraints, a tail
/// wildcard is ill-formed here, and every concrete leaf compares by
/// structural equality (floats by their bit pattern).
pub open spec fn element_matches(se: ElementModel, ce: ElementModel) -> bool
    decreases se, 0int, 0int,
{
    match se {
        ElementModel::Tuple(st) => ce matches ElementModel::Tuple(ct) && tuple_matches(st, ct),
        ElementModel::Variable(types) => variable_admits(types, ce),
        ElementModel::MaybeMore => false,
        _ => se == ce,
    }
}

/// Whether every schema element admits the candidate element at its index.
pub open spec fn all_elements_match(s2: Seq<ElementModel>, c: Seq<ElementModel>) -> bool
    decreases s2, 2int, 0int,
{
    forall|i: int| 0 <= i < s2.len() ==> element_matches(#[trigger] s2[i], c[i])
}

/// Whether a candidate tuple matches a schema tuple: with a tail wildcard
/// the candidate may be longer than the schema; without one the lengths must
/// agree; and each schema element must admit the candidate element at its
/// index.
pub open spec fn tuple_matches(s: Seq<ElementModel>, c: Seq<ElementModel>) -> bool
    decreases s, 3int, 0int,
{
    let mm = s.len() > 0 && s.last() is MaybeMore;
    let s2 = if mm {
        s.drop_last()
    } else {
        s
    };
    &&& (if mm {
        c.len() >= s2.len()
    } else {
        c.len() == s2.len()
    })
    &&& all_elements_match(s2, c)
}

/// The comparison of one schema element against one candidate element, as
/// the matcher computes it: `None` on a match, otherwise the index path of
/// the first mismatch.
pub open spec fn spec_compare_element(se: ElementModel, ce: ElementModel, index: int) -> Option<
    Seq<int>,
>
    decreases se, 0int, 0int,
{
    match se {
        ElementModel::Tuple(st) => {
            if ce matches ElementModel::Tuple(ct) {
                match spec_compare(st, ce->Tuple_0) {
                    Some(p) => Some(seq![index] + p),
                    None => None,
                }
            } else {
                Some(seq![index])
            }
        },
        ElementModel::Variable(types) => {
            if variable_admits(types, ce) {
                None
            } else {
                Some(seq![index])
            }
        },
        ElementModel::MaybeMore => Some(seq![index]),
        _ => {
            if se == ce {
                None
            } else {
                Some(seq![index])
            }
        },
    }
}

/// The first mismatch among the elements of `s` and `c` at indices `i` and
/// beyond, assuming equal lengths from `i` on.
pub open spec fn spec_compare_from(s: Seq<ElementModel>, c: Seq<ElementModel>, i: int) -> Option<
    Seq<int>,
>
    decreases s, 1int, s.len() - i,
{
    if i < 0 || i >= s.len() {
        None
    } else {
        match spec_compare_element(s[i], c[i], i) {
            Some(p) => Some(p),
            None => spec_compare_from(s, c, i + 1),
        }
    }
}

/// The comparison of a candidate tuple against a schema tuple: `None` on a
/// match, otherwise the index path to the first mismatching element.
pub open spec fn spec_compare(s: Seq<ElementModel>, c: Seq<ElementModel>) -> Option<Seq<int>>
    decreases s, 2int, 0int,
{
    if s.len() == 0 {
        if c.len() == 0 {
            None
        } else {
            Some(seq![0int])
        }
    } else {
        let mm = s.last() is MaybeMore;
        let s2 = if mm {
            s.drop_last()
        } else {
            s
        };
        if !mm && s2.len() < c.len() {
            Some(seq![s2.len() as int])
        } else if s2.len() > c.len() {
            Some(seq![c.len() as int])
        } else {
            spec_compare_from(s2, c, 0)
        }
    }
}

/// The model of a mismatch path: the indices as mathematical integers.
pub open spec fn path_model(r: Option<Vec<usize>>) -> Option<Seq<int>> {
    match r {
        None => None,
        Some(v) => Some(v@.map_values(|x: usize| x as int)),
    }
}

/// Check if a tuple element matches a specific value type.
pub fn matches_type(elem: &TupElement, vtype: ValueType) -> (r: bool)
    ensures
        r == type_matches(element_model(*elem), vtype),
{
    match vtype {
        ValueType::Any => true,
        ValueType::Int => matches!(elem, TupElement::Int(_)),
        ValueType::Uint => matches!(elem, TupElement::Uint(_)),
        ValueType::Bool => matches!(elem, TupElement::Bool(_)),
        ValueType::Float => matches!(elem, TupElement::Float(_)),
        ValueType::String => matches!(elem, TupElement::String(_)),
        ValueType::Bytes => matches!(elem, TupElement::Bytes(_)),
        ValueType::Uuid => matches!(elem, TupElement::Uuid(_)),
        ValueType::Tuple => matches!(elem, TupElement::Tuple(_)),
        ValueType::VStamp => matches!(elem, TupElement::VStamp(_)),
    }
}

fn bytes_eq(a: &Vec<u8>, b: &Vec<u8>) -> (r: bool)
    ensures
        r == (a@ == b@),
{
    if a.len() != b.len() {
        return false;
    }
    let mut i: usize = 0;
    while i < a.len()
        invariant
            i <= a.len(),
            a.len() == b.len(),
            forall|j: int| 0 <= j < i ==> a@[j] == b@[j],
        decreases a.len() - i,
    {
        if a[i] != b[i] {
            return false;
        }
        i = i + 1;
    }
    proof {
        assert(a@ =~= b@);
    }
    true
}

fn byte_array_eq<const N: usize>(a: &[u8; N], b: &[u8; N]) -> (r: bool)
    ensures
        r == (a@ == b@),
{
    let mut i: usize = 0;
    while i < N
        invariant
            i <= N,
            forall|j: int| 0 <= j < i ==> a@[j] == b@[j],
        decreases N - i,
    {
        if a[i] != b[i] {
            return false;
        }
        i = i + 1;
    }
    proof {
        assert(a@ =~= b@);
    }
    true
}

/// Compare a single schema element against a candidate element.
pub fn compare_element(schema: &TupElement, candidate: &TupElement, index: usize) -> (r: Option<
    Vec<usize>,
>)
    ensures
        path_model(r) == spec_compare_element(
            element_model(*schema),
            element_model(*candidate),
            index as int,
        ),
    decreases schema, 0int,
{
    match schema {
        TupElement::Tuple(schema_tup) => {
            if let TupElement::Tuple(cand_tup) = candidate {
                if let Some(mut mismatch) = compare(schema_tup, cand_tup) {
                    mismatch.insert(0, index);
                    proof {
                        let p = spec_compare(
                            tuple_model(schema_tup@),
                            tuple_model(cand_tup@),
                        )->Some_0;
                        assert(mismatch@.map_values(|x: usize| x as int) =~= seq![index as int]
                            + p);
                    }
                    Some(mismatch)
                } else {
                    None
                }
            } else {
                Some(vec![index])
            }
        },
        TupElement::Variable(var) => {
            // An empty constraint list means any type is allowed.
            if var.types.len() == 0 {
                return None;
            }
            let mut j: usize = 0;
            while j < var.types.len()
                invariant
                    j <= var.types.len(),
                    element_model(*schema) == ElementModel::Variable(var.types@),
                    var.types@.len() > 0,
                    forall|k: int|
                        0 <= k < j ==> !type_matches(
                            element_model(*candidate),
                            #[trigger] var.types@[k],
                        ),
            decreases var.types.len() - j,
            {
                if matches_type(candidate, var.types[j]) {
                    proof {
                        assert(type_matches(element_model(*candidate), var.types@[j as int]));
                        assert(variable_admits(var.types@, element_model(*candidate)));
                    }
                    return None;
                }
                j = j + 1;
            }
            proof {
                assert(!variable_admits(var.types@, element_model(*candidate)));
            }
            Some(vec![index])
        },
        TupElement::MaybeMore => {
            // The tail wildcard is only lawful as the final element; here it
            // marks an ill-formed schema.
            Some(vec![index])
        },
        TupElement::Nil => {
            if matches!(candidate, TupElement::Nil) {
                None
            } else {
                Some(vec![index])
            }
        },
        TupElement::Int(v) => {
            if let TupElement::Int(c) = candidate {
                if *c == *v {
                    None
                } else {
                    Some(vec![index])
                }
            } else {
                Some(vec![index])
            }
        },
        TupElement::Uint(v) => {
            if let TupElement::Uint(c) = candidate {
                if *c == *v {
                    None
                } else {
                    Some(vec![index])
                }
            } else {
                Some(vec![index])
            }
        },
        TupElement::Bool(v) => {
            if let TupElement::Bool(c) = candidate {
                if *c == *v {
                    None
                } else {
                    Some(vec![index])
                }
            } else {
                Some(vec![index])
            }
        },
        TupElement::Float(v) => {
            // Floats carry their bit pattern, so this equality is bit-exact.
            if let TupElement::Float(c) = candidate {
                if *c == *v {
                    None
                } else {
                    Some(vec![index])
                }
            } else {
                Some(vec![index])
            }
        },
        TupElement::String(v) => {
            if let TupElement::String(c) = candidate {
                if *c == *v {
                    None
                } else {
                    Some(vec![index])
                }
            } else {
                Some(vec![index])
            }
        },
        TupElement::Uuid(v) => {
            if let TupElement::Uuid(c) = candidate {
                if byte_array_eq(c, v) {
                    None
                } else {
                    Some(vec![index])
                }
            } else {
                Some(vec![index])
            }
        },
        TupElement::Bytes(v) => {
            if let TupElement::Bytes(c) = candidate {
                if bytes_eq(c, v) {
                    None
                } else {
                    Some(vec![index])
                }
            } else {
                Some(vec![index])
            }
        },
        TupElement::VStamp(v) => {
            if let TupElement::VStamp(c) = candidate {
                if byte_array_eq(&c.tx_version, &v.tx_version) && c.user_version == v.user_version {
                    None
                } else {
                    Some(vec![index])
                }
            } else {
                Some(vec![index])
            }
        },
        TupElement::VStampFuture(v) => {
            if let TupElement::VStampFuture(c) = candidate {
                if c.user_version == v.user_version {
                    None
                } else {
                    Some(vec![index])
                }
            } else {
                Some(vec![index])
            }
        },
    }
}

/// Compare a candidate tuple against a schema tuple.
///
/// The schema tuple may contain `Variable` or `MaybeMore` elements, while the
/// candidate must not contain either. Returns `None` if the tuples match, or
/// `Some` with the index path to the first mismatching element.
pub fn compare(schema: &Tuple, candidate: &Tuple) -> (r: Option<Vec<usize>>)
    ensures
        path_model(r) == spec_compare(tuple_model(schema@), tuple_model(candidate@)),
    decreases schema@, 1int,
{
    let ghost s = tuple_model(schema@);
    let ghost c = tuple_model(candidate@);

    // If the schema is empty, the candidate must be empty as well.
    if schema.len() == 0 {
        if candidate.len() == 0 {
            return None;
        } else {
            let r = Some(vec![0usize]);
            proof {
                assert(path_model(r)->Some_0 =~= seq![0int]);
            }
            return r;
        }
    }

    // Check if the schema ends with the tail wildcard.
    let has_maybe_more = matches!(&schema[schema.len() - 1], TupElement::MaybeMore);
    let limit: usize = if has_maybe_more {
        schema.len() - 1
    } else {
        schema.len()
    };
    let ghost s2 = if has_maybe_more {
        s.drop_last()
    } else {
        s
    };
    proof {
        assert(s.last() == element_model(schema@.last()));
        assert(s2.len() == limit);
        assert(forall|i: int| 0 <= i < limit ==> s2[i] == s[i]);
    }

    // Without the wildcard, a longer candidate mismatches just past the schema.
    if !has_maybe_more && limit < candidate.len() {
        let r = Some(vec![limit]);
        proof {
            assert(path_model(r)->Some_0 =~= seq![limit as int]);
        }
        return r;
    }

    // The candidate must be at least as long as the schema (minus the wildcard).
    if limit > candidate.len() {
        let r = Some(vec![candidate.len()]);
        proof {
            assert(path_model(r)->Some_0 =~= seq![c.len() as int]);
        }
        return r;
    }

    // Compare each element.
    let mut i: usize = 0;
    while i < limit
        invariant
            i <= limit,
            limit <= schema.len(),
            limit <= candidate.len(),
            s == tuple_model(schema@),
            c == tuple_model(candidate@),
            s2 == (if (s.len() > 0 && s.last() is MaybeMore) {
                s.drop_last()
            } else {
                s
            }),
            s.len() == schema.len(),
            c.len() == candidate.len(),
            s2.len() == limit,
            s.len() > 0,
            has_maybe_more == (s.last() is MaybeMore),
            !has_maybe_more ==> candidate.len() <= limit,
            forall|j: int| 0 <= j < limit ==> s2[j] == s[j],
            forall|j: int| 0 <= j < i ==> spec_compare_element(s2[j], c[j], j) is None,
        decreases limit - i,
    {
        proof {
            lemma_tuple_model(schema@);
            lemma_tuple_model(candidate@);
        }
        if let Some(mismatch) = compare_element(&schema[i], &candidate[i], i) {
            proof {
                lemma_compare_from_skip(s2, c, i as int);
                assert(spec_compare_from(s2, c, i as int) == path_model(Some(mismatch)));
            }
            return Some(mismatch);
        }
        i = i + 1;
    }
    proof {
        lemma_compare_from_skip(s2, c, limit as int);
    }
    None
}

/// Skipping matching elements does not change the first mismatch.
proof fn lemma_compare_from_skip(s: Seq<ElementModel>, c: Seq<ElementModel>, i: int)
    requires
        0 <= i <= s.len(),
        forall|j: int| 0 <= j < i ==> spec_compare_element(#[trigger] s[j], c[j], j) is None,
    ensures
        spec_compare_from(s, c, 0) == spec_compare_from(s, c, i),
    decreases i,
{
    if i > 0 {
        lemma_compare_from_skip(s, c, i - 1);
        assert(spec_compare_from(s, c, i - 1) == spec_compare_from(s, c, i));
    }
}

// ---------------------------------------------------------------------------
// Soundness and completeness of the matcher
// ---------------------------------------------------------------------------

/// Soundness at the element level: the element comparison yields no path
/// exactly when the schema element admits the candidate element.
pub proof fn lemma_element_soundness(se: ElementModel, ce: ElementModel, index: int)
    ensures
        spec_compare_element(se, ce, index) is None <==> element_matches(se, ce),
    decreases se, 0int, 0int,
{
    match se {
        ElementModel::Tuple(st) => {
            match ce {
                ElementModel::Tuple(ct) => lemma_matcher_soundness(st, ct),
                _ => {},
            }
        },
        _ => {},
    }
}

proof fn lemma_from_soundness(s: Seq<ElementModel>, c: Seq<ElementModel>, i: int)
    requires
        0 <= i <= s.len(),
        s.len() <= c.len(),
    ensures
        spec_compare_from(s, c, i) is None ==> (forall|j: int|
            i <= j < s.len() ==> element_matches(#[trigger] s[j], c[j])),
        spec_compare_from(s, c, i) is Some ==> (exists|j: int|
            i <= j < s.len() && !element_matches(#[trigger] s[j], c[j])),
    decreases s, 1int, s.len() - i,
{
    if i < s.len() {
        lemma_element_soundness(s[i], c[i], i);
        lemma_from_soundness(s, c, i + 1);
        if spec_compare_element(s[i], c[i], i) is Some {
            assert(!element_matches(s[i], c[i]));
        }
    }
}

/// Soundness of the matcher: the comparison yields no path exactly when the
/// candidate matches the schema, element for element.
pub proof fn lemma_matcher_soundness(s: Seq<ElementModel>, c: Seq<ElementModel>)
    ensures
        spec_compare(s, c) is None <==> tuple_matches(s, c),
    decreases s, 2int, 0int,
{
    if s.len() == 0 {
    } else {
        let mm = s.len() > 0 && s.last() is MaybeMore;
        let s2 = if mm {
            s.drop_last()
        } else {
            s
        };
        if !mm && s2.len() < c.len() {
            assert(c.len() != s2.len());
            assert(!tuple_matches(s, c));
        } else if s2.len() > c.len() {
            assert(!(c.len() >= s2.len()));
            assert(!tuple_matches(s, c));
        } else {
            lemma_from_soundness(s2, c, 0);
            assert(spec_compare(s, c) == spec_compare_from(s2, c, 0));
            if spec_compare(s, c) is None {
                assert(all_elements_match(s2, c));
                assert(tuple_matches(s, c));
            } else {
                let j0 = choose|j: int| 0 <= j < s2.len() && !element_matches(#[trigger] s2[j], c[j]);
                assert(!element_matches(s2[j0], c[j0]));
                assert(!all_elements_match(s2, c));
                assert(!tuple_matches(s, c));
            }
        }
    }
}

/// Whether an index path locates a genuine violation: followed into both
/// tuples it ends at an element the schema does not admit, or at the index
/// where one tuple ends while the rule requires more (or fewer) elements.
pub open spec fn locates_mismatch(s: Seq<ElementModel>, c: Seq<ElementModel>, p: Seq<int>) -> bool
    decreases p.len(),
{
    let mm = s.len() > 0 && s.last() is MaybeMore;
    let s2 = if mm {
        s.drop_last()
    } else {
        s
    };
    &&& p.len() >= 1
    &&& {
        let i = p[0];
        if p.len() == 1 {
            ||| (0 <= i < s2.len() && i < c.len() && !element_matches(s2[i], c[i]))
            ||| (i == c.len() && c.len() < s2.len())
            ||| (i == s2.len() && !mm && c.len() > s2.len())
        } else {
            &&& 0 <= i < s2.len()
            &&& i < c.len()
            &&& s2[i] matches ElementModel::Tuple(st)
            &&& c[i] matches ElementModel::Tuple(ct)
            &&& locates_mismatch(s2[i]->Tuple_0, c[i]->Tuple_0, p.drop_first())
        }
    }
}

proof fn lemma_element_completeness(se: ElementModel, ce: ElementModel, index: int, p: Seq<int>)
    requires
        spec_compare_element(se, ce, index) == Some(p),
    ensures
        p.len() >= 1,
        p[0] == index,
        p.len() == 1 ==> !element_matches(se, ce),
        p.len() > 1 ==> se is Tuple && ce is Tuple && locates_mismatch(
            se->Tuple_0,
            ce->Tuple_0,
            p.drop_first(),
        ),
    decreases se, 0int, 0int,
{
    match se {
        ElementModel::Tuple(st) => {
            match ce {
                ElementModel::Tuple(ct) => {
                    match spec_compare(st, ct) {
                        Some(q) => {
                            assert(p =~= seq![index] + q);
                            assert(p.drop_first() =~= q);
                            lemma_matcher_completeness(st, ct, q);
                            if p.len() == 1 {
                                assert(q.len() == 0);
                                assert(false);
                            }
                        },
                        None => {},
                    }
                },
                _ => {},
            }
        },
        ElementModel::Variable(_) => {},
        _ => {
            lemma_element_soundness(se, ce, index);
        },
    }
}

proof fn lemma_from_completeness(s: Seq<ElementModel>, c: Seq<ElementModel>, i: int, p: Seq<int>)
    requires
        0 <= i <= s.len(),
        s.len() <= c.len(),
        spec_compare_from(s, c, i) == Some(p),
    ensures
        exists|j: int|
            i <= j < s.len() && #[trigger] spec_compare_element(s[j], c[j], j) == Some(p),
    decreases s, 1int, s.len() - i,
{
    if i < s.len() {
        match spec_compare_element(s[i], c[i], i) {
            Some(_) => {},
            None => {
                lemma_from_completeness(s, c, i + 1, p);
            },
        }
    }
}

/// Completeness of the matcher: every path the comparison returns locates a
/// genuine violation of the matching rule in both tuples.
pub proof fn lemma_matcher_completeness(s: Seq<ElementModel>, c: Seq<ElementModel>, p: Seq<int>)
    requires
        spec_compare(s, c) == Some(p),
    ensures
        locates_mismatch(s, c, p),
    decreases s, 2int, 0int,
{
    if s.len() == 0 {
        assert(p =~= seq![0int]);
    } else {
        let mm = s.last() is MaybeMore;
        let s2 = if mm {
            s.drop_last()
        } else {
            s
        };
        if !mm && s2.len() < c.len() {
            assert(p =~= seq![s2.len() as int]);
        } else if s2.len() > c.len() {
            assert(p =~= seq![c.len() as int]);
        } else {
            lemma_from_completeness(s2, c, 0, p);
            let j = choose|j: int|
                0 <= j < s2.len() && #[trigger] spec_compare_element(s2[j], c[j], j) == Some(p);
            lemma_element_completeness(s2[j], c[j], j, p);
        }
    }
}

} // verus!
