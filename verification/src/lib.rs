//! Core data model for the transaction lifecycle of a permissioned ledger.
//!
//! An unsigned intent is assembled by a [`transaction::TransactionBuilder`],
//! signed into a versioned [`transaction::SignedTransaction`], classified as a
//! [`transaction::TransactionEntrypoint`] (externally submitted or internally
//! time-triggered), and executed into a [`transaction::TransactionResult`]
//! that is either a sequence of data-trigger steps or one rejection reason
//! from a closed taxonomy.
//!
//! Hashing and signing go through an external hash and signature primitive;
//! values are serialized for those primitives through an external canonical
//! codec. Everything else — field assembly, hash-domain separation, the
//! rejection taxonomy, and the predicate atoms over these types — is verified.
use vstd::prelude::*;

pub mod account;
pub mod codec;
pub mod crypto;
pub mod error;
pub mod isi;
pub mod metadata;
pub mod name;
pub mod predicate;
pub mod text;
pub mod time;
pub mod transaction;
pub mod trigger;

verus! {

/// Unique id of the blockchain. Used for simple replay attack protection.
#[derive(Debug, Clone, PartialEq, Eq, Hash)]
pub struct ChainId {
    /// Textual identifier of the chain.
    pub inner: String,
}

impl View for ChainId {
    type V = Seq<char>;

    open spec fn view(&self) -> Seq<char> {
        self.inner@
    }
}

impl ChainId {
    /// Construct a chain id from its textual form.
    pub fn new(inner: String) -> (r: Self)
        ensures
            r@ == inner@,
    {
        ChainId { inner }
    }
}

} // verus!
