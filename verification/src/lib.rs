//! FQL: a query representation and classification pipeline for an ordered,
//! transactional key-value store.
//!
//! A query expresses the shape of the data of interest (directory path, tuple
//! key, value) and, through the holes that appear in that shape, the operation
//! to perform. This crate holds the algebraic data model for queries and
//! results, the classifier that decides which operation class a query
//! represents, the structural matcher that checks a concrete tuple against a
//! schema tuple, the binary codec that packs and unpacks leaf values, the
//! scanner and formatter of the query text, and the engine that dispatches
//! classified queries.

pub mod class;
pub mod convert;
pub mod engine;
pub mod facade;
pub mod format;
pub mod keyval;
pub mod parser;
pub mod scanner;
pub mod text;
pub mod tuple;
pub mod values;
