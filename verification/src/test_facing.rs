//! A model for tests that writes user-table documents directly, without the
//! validation ordinary writes go through.

use vstd::prelude::*;

use crate::transaction::Document;
use crate::transaction::Transaction;
use crate::transaction::TransactionError;
use crate::values::ConvexObject;

verus! {

/// Writes documents into user tables for tests. The model owns the
/// transaction for its lifetime and hands it back when done.
pub struct TestFacingModel {
    tx: Transaction,
}

impl TestFacingModel {
    /// The transaction the model wraps.
    pub closed spec fn spec_transaction(&self) -> Transaction {
        self.tx
    }

    /// The documents the model sees.
    pub open spec fn spec_documents(&self) -> Seq<Document> {
        self.spec_transaction().spec_documents()
    }

    /// The wrapped transaction is well-formed.
    pub open spec fn wf(&self) -> bool {
        self.spec_transaction().wf()
    }

    /// Wraps a transaction.
    pub fn new(tx: Transaction) -> (r: Self)
        ensures
            r.spec_transaction() == tx,
    {
        TestFacingModel { tx }
    }

    /// Hands the transaction back.
    pub fn into_transaction(self) -> (r: Transaction)
        ensures
            r == self.spec_transaction(),
    {
        self.tx
    }

    /// Inserts a new document into a table and returns its fresh id.
    pub fn insert(&mut self, table: String, value: ConvexObject) -> (id: u64)
        requires
            old(self).wf(),
            old(self).spec_transaction().spec_next_id() < u64::MAX,
        ensures
            final(self).wf(),
            id == old(self).spec_transaction().spec_next_id(),
            final(self).spec_documents().len() == old(self).spec_documents().len() + 1,
            final(self).spec_documents().last().id == id,
            final(self).spec_documents().last().table@ == table@,
            final(self).spec_documents().last().value == value,
            final(self).spec_documents().drop_last() == old(self).spec_documents(),
            final(self).spec_transaction().spec_backend_rows() == old(self).spec_transaction().spec_backend_rows(),
    {
        self.tx.insert_document(table, value)
    }

    /// Replaces the payload of an existing document, keeping its table;
    /// fails exactly when no document carries the id.
    pub fn replace(&mut self, id: u64, value: ConvexObject) -> (r: Result<(), TransactionError>)
        requires
            old(self).wf(),
        ensures
            final(self).wf(),
            final(self).spec_documents().len() == old(self).spec_documents().len(),
            match r {
                Ok(()) => {
                    &&& exists|k: int|
                        0 <= k < old(self).spec_documents().len() && (#[trigger] old(self).spec_documents()[k]).id == id
                    &&& forall|k: int|
                        0 <= k < old(self).spec_documents().len() ==> {
                            let d = #[trigger] old(self).spec_documents()[k];
                            final(self).spec_documents()[k] == (if d.id == id {
                                Document { id, table: d.table, value }
                            } else {
                                d
                            })
                        }
                },
                Err(TransactionError::DocumentNotFound) => {
                    &&& forall|k: int|
                        0 <= k < old(self).spec_documents().len() ==> (#[trigger] old(self).spec_documents()[k]).id != id
                    &&& final(self).spec_documents() == old(self).spec_documents()
                },
            },
    {
        self.tx.replace_document(id, value)
    }

    /// Inserts a new document and immediately reads it back. The read can
    /// never miss: the store just assigned the id.
    pub fn insert_and_get(&mut self, table: String, value: ConvexObject) -> (r: &Document)
        requires
            old(self).wf(),
            old(self).spec_transaction().spec_next_id() < u64::MAX,
        ensures
            final(self).wf(),
            r.id == old(self).spec_transaction().spec_next_id(),
            final(self).spec_documents().len() == old(self).spec_documents().len() + 1,
            final(self).spec_documents().last().id == r.id,
            final(self).spec_documents().last().table@ == table@,
            final(self).spec_documents().last().value == value,
            final(self).spec_documents().drop_last() == old(self).spec_documents(),
    {
        let id = self.tx.insert_document(table, value);
        match self.tx.get_document(id) {
            Some(document) => document,
            None => {
                proof {
                    assert(self.spec_documents().last().id == id);
                    assert(false);
                }
                vstd::pervasive::unreached()
            },
        }
    }
}

} // verus!
