//! Conversions between the query tuples and the store's tuple format.
//!
//! The tuple layer itself (type tags, lexicographic ordering, nested-tuple
//! encoding) is an external collaborator; these placeholders stand where its
//! integration goes and pack to nothing.

use vstd::prelude::*;

use crate::keyval::{Tuple, TupElement};

verus! {

/// Convert a query tuple to the store's tuple format. Placeholder for the
/// external tuple layer: packs to the empty byte string.
pub fn to_fdb_tuple(_tuple: &Tuple) -> (r: Result<Vec<u8>, String>)
    ensures
        r is Ok,
        r matches Ok(v) ==> v@ =~= Seq::<u8>::empty(),
{
    Ok(Vec::new())
}

/// Convert from the store's tuple format to a query tuple. Placeholder for
/// the external tuple layer: yields the empty tuple.
pub fn from_fdb_tuple(_data: &[u8]) -> (r: Result<Tuple, String>)
    ensures
        r is Ok,
        r matches Ok(t) ==> t@ =~= Seq::<TupElement>::empty(),
{
    Ok(Vec::new())
}

} // verus!
