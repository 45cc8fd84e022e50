//! A transaction's view of the store, as far as this crate's models read and
//! write it: the single-row backend-state table, and user-table documents
//! keyed by a fresh numeric id. The storage engine behind a real transaction
//! is out of scope; this model pins down exactly what the models on top of
//! it may observe and change.

use vstd::prelude::*;

use crate::backend_state::BackendState;
use crate::values::ConvexObject;

verus! {

/// Why a store operation failed.
#[derive(Clone, Copy, PartialEq, Eq, Structural, Debug)]
pub enum TransactionError {
    /// No document carries the given id.
    DocumentNotFound,
}

/// One stored document: its id, the table it lives in, and its payload.
#[derive(PartialEq, Eq, Debug)]
pub struct Document {
    pub id: u64,
    pub table: String,
    pub value: ConvexObject,
}

/// Backend-state rows are well-formed against the next fresh id: every id
/// in use is below it, and no two rows share an id.
pub open spec fn backend_rows_wf(rows: Seq<(u64, BackendState)>, next: u64) -> bool {
    &&& forall|i: int| 0 <= i < rows.len() ==> (#[trigger] rows[i]).0 < next
    &&& forall|i: int, j: int|
        0 <= i < j < rows.len() ==> (#[trigger] rows[i]).0 != (#[trigger] rows[j]).0
}

/// Documents are well-formed against the next fresh id: every id in use is
/// below it, and no two documents share an id.
pub open spec fn documents_wf(docs: Seq<Document>, next: u64) -> bool {
    &&& forall|i: int| 0 <= i < docs.len() ==> (#[trigger] docs[i]).id < next
    &&& forall|i: int, j: int|
        0 <= i < j < docs.len() ==> (#[trigger] docs[i]).id != (#[trigger] docs[j]).id
}

/// Appending a row under the next fresh id keeps the rows well-formed.
proof fn lemma_backend_rows_wf_push(rows: Seq<(u64, BackendState)>, next: u64, state: BackendState)
    requires
        backend_rows_wf(rows, next),
        next < u64::MAX,
    ensures
        backend_rows_wf(rows.push((next, state)), (next + 1) as u64),
{
    let rows2 = rows.push((next, state));
    assert forall|i: int| 0 <= i < rows2.len() implies (#[trigger] rows2[i]).0 < next + 1 by {
        if i < rows.len() {
            assert(rows[i].0 < next);
        }
    };
    assert forall|i: int, j: int|
        0 <= i < j < rows2.len() implies (#[trigger] rows2[i]).0 != (#[trigger] rows2[j]).0 by {
        if j < rows.len() {
            assert(rows[i].0 != rows[j].0);
        } else {
            assert(rows[i].0 < next);
        }
    };
}

/// Appending a document under the next fresh id keeps the documents
/// well-formed.
proof fn lemma_documents_wf_push(docs: Seq<Document>, next: u64, d: Document)
    requires
        documents_wf(docs, next),
        d.id == next,
        next < u64::MAX,
    ensures
        documents_wf(docs.push(d), (next + 1) as u64),
{
    let docs2 = docs.push(d);
    assert forall|i: int| 0 <= i < docs2.len() implies (#[trigger] docs2[i]).id < next + 1 by {
        if i < docs.len() {
            assert(docs[i].id < next);
        }
    };
    assert forall|i: int, j: int|
        0 <= i < j < docs2.len() implies (#[trigger] docs2[i]).id != (#[trigger] docs2[j]).id by {
        if j < docs.len() {
            assert(docs[i].id != docs[j].id);
        } else {
            assert(docs[i].id < next);
        }
    };
}

/// Replacing what a row carries, keeping its id, keeps the rows well-formed.
proof fn lemma_backend_rows_wf_update(
    rows: Seq<(u64, BackendState)>,
    next: u64,
    k: int,
    state: BackendState,
)
    requires
        backend_rows_wf(rows, next),
        0 <= k < rows.len(),
    ensures
        backend_rows_wf(rows.update(k, (rows[k].0, state)), next),
{
    let rows2 = rows.update(k, (rows[k].0, state));
    assert forall|i: int| 0 <= i < rows2.len() implies (#[trigger] rows2[i]).0 < next by {
        assert(rows[i].0 < next);
    };
    assert forall|i: int, j: int|
        0 <= i < j < rows2.len() implies (#[trigger] rows2[i]).0 != (#[trigger] rows2[j]).0 by {
        assert(rows[i].0 != rows[j].0);
    };
}

/// Replacing a document's payload, keeping its id, keeps the documents
/// well-formed.
proof fn lemma_documents_wf_update(docs: Seq<Document>, next: u64, k: int, d: Document)
    requires
        documents_wf(docs, next),
        0 <= k < docs.len(),
        d.id == docs[k].id,
    ensures
        documents_wf(docs.update(k, d), next),
{
    let docs2 = docs.update(k, d);
    assert forall|i: int| 0 <= i < docs2.len() implies (#[trigger] docs2[i]).id < next by {
        assert(docs[i].id < next);
    };
    assert forall|i: int, j: int|
        0 <= i < j < docs2.len() implies (#[trigger] docs2[i]).id != (#[trigger] docs2[j]).id by {
        assert(docs[i].id != docs[j].id);
    };
}

/// One transaction's view of the store.
pub struct Transaction {
    next_document_id: u64,
    backend_state_rows: Vec<(u64, BackendState)>,
    documents: Vec<Document>,
}

impl Transaction {
    /// The next id a fresh document or row will get.
    pub closed spec fn spec_next_id(&self) -> u64 {
        self.next_document_id
    }

    /// The rows of the backend-state table, in insertion order.
    pub closed spec fn spec_backend_rows(&self) -> Seq<(u64, BackendState)> {
        self.backend_state_rows@
    }

    /// The user-table documents, in insertion order.
    pub closed spec fn spec_documents(&self) -> Seq<Document> {
        self.documents@
    }

    /// Ids never repeat: both tables are well-formed against the next fresh
    /// id.
    pub open spec fn wf(&self) -> bool {
        &&& backend_rows_wf(self.spec_backend_rows(), self.spec_next_id())
        &&& documents_wf(self.spec_documents(), self.spec_next_id())
    }

    /// An empty transaction over an empty store.
    pub fn new() -> (r: Self)
        ensures
            r.spec_next_id() == 0,
            r.spec_backend_rows() == Seq::<(u64, BackendState)>::empty(),
            r.spec_documents() == Seq::<Document>::empty(),
            r.wf(),
    {
        Transaction { next_document_id: 0, backend_state_rows: Vec::new(), documents: Vec::new() }
    }

    /// Appends one backend-state row under a fresh id.
    pub fn insert_backend_row(&mut self, state: BackendState) -> (id: u64)
        requires
            old(self).wf(),
            old(self).spec_next_id() < u64::MAX,
        ensures
            final(self).wf(),
            id == old(self).spec_next_id(),
            final(self).spec_next_id() == old(self).spec_next_id() + 1,
            final(self).spec_backend_rows() == old(self).spec_backend_rows().push((id, state)),
            final(self).spec_documents() == old(self).spec_documents(),
    {
        let id = self.next_document_id;
        self.next_document_id = self.next_document_id + 1;
        self.backend_state_rows.push((id, state));
        proof {
            lemma_backend_rows_wf_push(old(self).spec_backend_rows(), id, state);
        }
        id
    }

    /// How many rows the backend-state table holds.
    pub fn backend_row_count(&self) -> (r: usize)
        ensures
            r == self.spec_backend_rows().len(),
    {
        self.backend_state_rows.len()
    }

    /// The backend-state row at an index.
    pub fn backend_row_at(&self, i: usize) -> (r: (u64, BackendState))
        requires
            i < self.spec_backend_rows().len(),
        ensures
            r == self.spec_backend_rows()[i as int],
    {
        self.backend_state_rows[i]
    }

    /// Replaces the state carried by the row with the given id; fails
    /// exactly when no row carries it.
    #[verifier::loop_isolation(false)]
    pub fn replace_backend_row(&mut self, id: u64, state: BackendState) -> (r: Result<
        (),
        TransactionError,
    >)
        requires
            old(self).wf(),
        ensures
            final(self).wf(),
            final(self).spec_next_id() == old(self).spec_next_id(),
            final(self).spec_documents() == old(self).spec_documents(),
            final(self).spec_backend_rows().len() == old(self).spec_backend_rows().len(),
            match r {
                Ok(()) => {
                    &&& exists|k: int|
                        0 <= k < old(self).spec_backend_rows().len() && (#[trigger] old(self).spec_backend_rows()[k]).0 == id
                    &&& forall|k: int|
                        0 <= k < old(self).spec_backend_rows().len() ==> final(self).spec_backend_rows()[k] == (if (#[trigger] old(self).spec_backend_rows()[k]).0 == id {
                            (id, state)
                        } else {
                            old(self).spec_backend_rows()[k]
                        })
                },
                Err(TransactionError::DocumentNotFound) => {
                    &&& forall|k: int|
                        0 <= k < old(self).spec_backend_rows().len() ==> (#[trigger] old(self).spec_backend_rows()[k]).0 != id
                    &&& final(self).spec_backend_rows() == old(self).spec_backend_rows()
                },
            },
    {
        let ghost orig = self.backend_state_rows@;
        let mut i: usize = 0;
        while i < self.backend_state_rows.len()
            invariant
                0 <= i <= orig.len(),
                self.backend_state_rows@ == orig,
                self.next_document_id == old(self).spec_next_id(),
                self.documents@ == old(self).spec_documents(),
                forall|k: int| 0 <= k < i ==> (#[trigger] orig[k]).0 != id,
            decreases orig.len() - i,
        {
            if self.backend_state_rows[i].0 == id {
                self.backend_state_rows.set(i, (id, state));
                proof {
                    assert(orig[i as int].0 == id);
                    assert(self.backend_state_rows@ =~= orig.update(
                        i as int,
                        (orig[i as int].0, state),
                    ));
                    lemma_backend_rows_wf_update(orig, self.next_document_id, i as int, state);
                    assert forall|k: int|
                        0 <= k < orig.len() && k != i implies (#[trigger] orig[k]).0 != id by {
                        if k < i {
                            assert(orig[k].0 != orig[i as int].0);
                        } else {
                            assert(orig[i as int].0 != orig[k].0);
                        }
                    };
                }
                return Ok(());
            }
            i = i + 1;
        }
        Err(TransactionError::DocumentNotFound)
    }

    /// Appends one document under a fresh id and returns that id.
    pub fn insert_document(&mut self, table: String, value: ConvexObject) -> (id: u64)
        requires
            old(self).wf(),
            old(self).spec_next_id() < u64::MAX,
        ensures
            final(self).wf(),
            id == old(self).spec_next_id(),
            final(self).spec_next_id() == old(self).spec_next_id() + 1,
            final(self).spec_backend_rows() == old(self).spec_backend_rows(),
            final(self).spec_documents().len() == old(self).spec_documents().len() + 1,
            final(self).spec_documents().last().id == id,
            final(self).spec_documents().last().table@ == table@,
            final(self).spec_documents().last().value == value,
            final(self).spec_documents().drop_last() == old(self).spec_documents(),
    {
        let id = self.next_document_id;
        self.next_document_id = self.next_document_id + 1;
        let ghost d = Document { id, table, value };
        self.documents.push(Document { id, table, value });
        proof {
            lemma_documents_wf_push(old(self).spec_documents(), id, d);
            assert(self.spec_documents().drop_last() =~= old(self).spec_documents());
        }
        id
    }

    /// Looks a document up by id.
    #[verifier::loop_isolation(false)]
    pub fn get_document(&self, id: u64) -> (r: Option<&Document>)
        requires
            self.wf(),
        ensures
            match r {
                Some(d) => d.id == id && exists|k: int|
                    0 <= k < self.spec_documents().len() && #[trigger] self.spec_documents()[k]
                        == *d,
                None => forall|k: int|
                    0 <= k < self.spec_documents().len() ==> (
                    #[trigger] self.spec_documents()[k]).id != id,
            },
    {
        let mut i: usize = 0;
        while i < self.documents.len()
            invariant
                0 <= i <= self.documents@.len(),
                forall|k: int| 0 <= k < i ==> (#[trigger] self.documents@[k]).id != id,
            decreases self.documents@.len() - i,
        {
            if self.documents[i].id == id {
                proof {
                    assert(self.spec_documents()[i as int] == self.documents@[i as int]);
                }
                return Some(&self.documents[i]);
            }
            i = i + 1;
        }
        None
    }

    /// Replaces the payload of the document with the given id, keeping its
    /// table; fails exactly when no document carries the id.
    #[verifier::loop_isolation(false)]
    pub fn replace_document(&mut self, id: u64, value: ConvexObject) -> (r: Result<
        (),
        TransactionError,
    >)
        requires
            old(self).wf(),
        ensures
            final(self).wf(),
            final(self).spec_next_id() == old(self).spec_next_id(),
            final(self).spec_backend_rows() == old(self).spec_backend_rows(),
            final(self).spec_documents().len() == old(self).spec_documents().len(),
            match r {
                Ok(()) => {
                    &&& exists|k: int|
                        0 <= k < old(self).spec_documents().len() && (#[trigger] old(self).spec_documents()[k]).id == id
                    &&& forall|k: int|
                        0 <= k < old(self).spec_documents().len() ==> {
                            let d = #[trigger] old(self).spec_documents()[k];
                            final(self).spec_documents()[k] == (if d.id == id {
                                Document { id, table: d.table, value }
                            } else {
                                d
                            })
                        }
                },
                Err(TransactionError::DocumentNotFound) => {
                    &&& forall|k: int|
                        0 <= k < old(self).spec_documents().len() ==> (#[trigger] old(self).spec_documents()[k]).id != id
                    &&& final(self).spec_documents() == old(self).spec_documents()
                },
            },
    {
        let ghost orig = self.documents@;
        let mut i: usize = 0;
        while i < self.documents.len()
            invariant
                0 <= i <= orig.len(),
                self.documents@ == orig,
                self.next_document_id == old(self).spec_next_id(),
                self.backend_state_rows@ == old(self).spec_backend_rows(),
                forall|k: int| 0 <= k < i ==> (#[trigger] orig[k]).id != id,
            decreases orig.len() - i,
        {
            if self.documents[i].id == id {
                let table = self.documents.remove(i).table;
                self.documents.insert(i, Document { id, table, value });
                proof {
                    assert(orig[i as int].id == id);
                    assert(self.documents@[i as int] == (Document {
                        id,
                        table: orig[i as int].table,
                        value,
                    }));
                    assert(self.documents@ =~= orig.update(
                        i as int,
                        Document { id, table: orig[i as int].table, value },
                    ));
                    lemma_documents_wf_update(
                        orig,
                        self.next_document_id,
                        i as int,
                        Document { id, table: orig[i as int].table, value },
                    );
                    assert forall|k: int|
                        0 <= k < orig.len() && k != i implies (#[trigger] orig[k]).id != id by {
                        if k < i {
                            assert(orig[k].id != orig[i as int].id);
                        } else {
                            assert(orig[i as int].id != orig[k].id);
                        }
                    };
                }
                return Ok(());
            }
            i = i + 1;
        }
        Err(TransactionError::DocumentNotFound)
    }
}

} // verus!
