//! Query parsing.
//!
//! Turns query strings into query structures. The full parser state machine
//! is not built yet: non-empty input parses to a fixed placeholder query,
//! and empty input is rejected.

use vstd::prelude::*;

use crate::keyval::{
    Query, KeyValue, Key, Value, TupElement, QueryModel, KeyValueModel, KeyModel, ValueModel,
    ElementModel, query_model, tuple_model, lemma_tuple_model,
};

verus! {

/// An error of the parser.
#[derive(Debug, Clone, PartialEq, Eq)]
pub enum ParseError {
    /// A token appeared where the grammar does not allow it.
    UnexpectedToken(String),
    /// The input does not form a query.
    InvalidSyntax(String),
    /// The scanner could not cut the input into tokens.
    ScanError(String),
}

/// Model of a parse error.
#[verifier::ext_equal]
pub enum ParseErrorModel {
    UnexpectedToken(Seq<char>),
    InvalidSyntax(Seq<char>),
    ScanError(Seq<char>),
}

pub open spec fn parse_error_model(e: ParseError) -> ParseErrorModel {
    match e {
        ParseError::UnexpectedToken(s) => ParseErrorModel::UnexpectedToken(s@),
        ParseError::InvalidSyntax(s) => ParseErrorModel::InvalidSyntax(s@),
        ParseError::ScanError(s) => ParseErrorModel::ScanError(s@),
    }
}

/// The query that any non-empty input parses to while the parser state
/// machine is a placeholder: `(1)=42`.
pub open spec fn placeholder_query() -> QueryModel {
    QueryModel::KeyValue(
        KeyValueModel {
            key: KeyModel { directory: Seq::empty(), tuple: seq![ElementModel::Int(1)] },
            value: ValueModel::Int(42),
        },
    )
}

/// Parse a query string into a query structure.
pub fn parse(input: &str) -> (r: Result<Query, ParseError>)
    ensures
        input@.len() == 0 ==> (r matches Err(e) && parse_error_model(e)
            == ParseErrorModel::InvalidSyntax("Empty input"@)),
        input@.len() > 0 ==> (r matches Ok(q) && query_model(q) == placeholder_query()),
{
    if input.unicode_len() == 0 {
        return Err(ParseError::InvalidSyntax(String::from_str("Empty input")));
    }

    let mut tuple: Vec<TupElement> = Vec::new();
    tuple.push(TupElement::Int(1));
    let ghost telems = tuple@;
    let r = Query::KeyValue(
        KeyValue {
            key: Key { directory: Vec::new(), tuple },
            value: Value::Int(42),
        },
    );
    proof {
        lemma_tuple_model(telems);
        assert(tuple_model(telems) =~= seq![ElementModel::Int(1)]);
        assert(query_model(r) =~~= placeholder_query());
    }
    Ok(r)
}

} // verus!
