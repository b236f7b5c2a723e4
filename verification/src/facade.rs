//! The storage driver abstraction.
//!
//! The engine reaches the store through these traits, so that a live driver
//! and an in-memory mock are interchangeable. The driver performs I/O, so
//! implementations live with the embedding application; nothing here
//! promises anything of them.

use vstd::prelude::*;

verus! {

/// An error of the storage driver.
#[derive(Debug, Clone, PartialEq, Eq)]
pub enum FacadeError {
    /// The transaction could not be created or carried out.
    TransactionError(String),
}

/// One transaction against the store: point reads and writes, clears,
/// ordered range reads over packed keys, and the commit-time versionstamp
/// writes, which take a template and the offset of the stamp within it.
pub trait Transaction {
    fn get(&self, key: &[u8]) -> Result<Option<Vec<u8>>, FacadeError>;

    fn set(&self, key: &[u8], value: &[u8]) -> Result<(), FacadeError>;

    fn clear(&self, key: &[u8]) -> Result<(), FacadeError>;

    fn get_range(&self, begin: &[u8], end: &[u8]) -> Result<
        Vec<(Vec<u8>, Vec<u8>)>,
        FacadeError,
    >;

    fn set_versionstamped_key(&self, template: &[u8], stamp_offset: u32) -> Result<
        (),
        FacadeError,
    >;

    fn set_versionstamped_value(&self, template: &[u8], stamp_offset: u32) -> Result<
        (),
        FacadeError,
    >;
}

/// A handle to the store that can open transactions.
pub trait Database {
    type Transaction: Transaction;

    fn create_transaction(&self) -> Result<Self::Transaction, FacadeError>;
}

} // verus!
