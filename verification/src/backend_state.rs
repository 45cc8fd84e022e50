//! The deployment-wide backend state: a single-row system table saying
//! whether functions may run, and the model that reads and toggles it.

use vstd::prelude::*;

use crate::transaction::Transaction;
use crate::transaction::TransactionError;

verus! {

/// Whether a deployment is serving function calls.
#[derive(Clone, Copy, PartialEq, Eq, Structural, Debug)]
pub enum BackendState {
    Running,
    Paused,
    Disabled,
    Suspended,
}

/// A user-visible error raised from inside the sandbox's world, as opposed
/// to a system error of the host.
#[derive(PartialEq, Eq, Debug)]
pub struct JsError {
    pub message: String,
}

impl JsError {
    /// Wraps a plain message.
    pub fn from_message(message: String) -> (r: Self)
        ensures
            r.message == message,
    {
        JsError { message }
    }
}

/// Why reading or toggling the backend state failed on the system's side.
#[derive(PartialEq, Eq, Debug)]
pub enum BackendStateError {
    /// The backend-state table is empty; a backend must have a state.
    NoBackendState,
    /// The backend-state table has more than one row; a backend must have a
    /// single state.
    MultipleBackendStates,
    /// A toggle to the state the deployment is already in; a bad request.
    DeploymentAlreadyInState(BackendState),
}

/// The message given when functions are invoked on a paused deployment.
pub fn paused_error_message() -> (r: &'static str)
    ensures
        r@
            == "Cannot run functions while this deployment is paused. Resume the deployment in the dashboard settings to allow functions to run."@,
{
    "Cannot run functions while this deployment is paused. Resume the deployment in the dashboard settings to allow functions to run."
}

/// The message given when functions are invoked on a disabled deployment.
pub fn disabled_error_message() -> (r: &'static str)
    ensures
        r@
            == "You have exceeded the free plan limits, so your deployments have been disabled. Please upgrade to a Pro plan or reach out to us at support@convex.dev for help."@,
{
    "You have exceeded the free plan limits, so your deployments have been disabled. Please upgrade to a Pro plan or reach out to us at support@convex.dev for help."
}

/// The message given when functions are invoked on a suspended deployment.
pub fn suspended_error_message() -> (r: &'static str)
    ensures
        r@
            == "Cannot run functions while this deployment is suspended. Please contact Convex if you believe this is a mistake."@,
{
    "Cannot run functions while this deployment is suspended. Please contact Convex if you believe this is a mistake."
}

/// An index of a system table. The backend-state table has none.
#[derive(PartialEq, Eq, Debug)]
pub struct SystemIndex {
    pub name: String,
}

/// The system table holding the single backend-state row.
pub struct BackendStateTable;

impl BackendStateTable {
    /// The fixed name of the table.
    pub fn table_name(&self) -> (r: &'static str)
        ensures
            r@ == "_backend_state"@,
    {
        "_backend_state"
    }

    /// The table's indexes: none.
    pub fn indexes(&self) -> (r: Vec<SystemIndex>)
        ensures
            r@.len() == 0,
    {
        Vec::new()
    }
}

/// Reads and writes the backend state within one transaction. The model
/// owns the transaction for its lifetime and hands it back when done.
pub struct BackendStateModel {
    tx: Transaction,
}

impl BackendStateModel {
    /// The rows of the backend-state table the model sees.
    pub open spec fn spec_rows(&self) -> Seq<(u64, BackendState)> {
        self.spec_transaction().spec_backend_rows()
    }

    /// The transaction the model wraps.
    pub closed spec fn spec_transaction(&self) -> Transaction {
        self.tx
    }

    /// The wrapped transaction is well-formed.
    pub open spec fn wf(&self) -> bool {
        self.spec_transaction().wf()
    }

    /// Wraps a transaction.
    pub fn new(tx: Transaction) -> (r: Self)
        ensures
            r.spec_transaction() == tx,
    {
        BackendStateModel { tx }
    }

    /// Hands the transaction back.
    pub fn into_transaction(self) -> (r: Transaction)
        ensures
            r == self.spec_transaction(),
    {
        self.tx
    }

    /// Creates the backend-state row, initialized as running.
    pub fn initialize(&mut self)
        requires
            old(self).wf(),
            old(self).spec_transaction().spec_next_id() < u64::MAX,
        ensures
            final(self).wf(),
            final(self).spec_rows() == old(self).spec_rows().push(
                (old(self).spec_transaction().spec_next_id(), BackendState::Running),
            ),
            final(self).spec_transaction().spec_documents() == old(self).spec_transaction().spec_documents(),
    {
        self.tx.insert_backend_row(BackendState::Running);
    }

    /// The single backend-state row: fails if the table is empty or holds
    /// more than one row.
    fn get_backend_state_row(&self) -> (r: Result<(u64, BackendState), BackendStateError>)
        requires
            self.wf(),
        ensures
            match r {
                Ok(row) => self.spec_rows().len() == 1 && row == self.spec_rows()[0],
                Err(BackendStateError::NoBackendState) => self.spec_rows().len() == 0,
                Err(BackendStateError::MultipleBackendStates) => self.spec_rows().len() > 1,
                Err(_) => false,
            },
    {
        let n = self.row_count();
        if n == 0 {
            Err(BackendStateError::NoBackendState)
        } else if n > 1 {
            Err(BackendStateError::MultipleBackendStates)
        } else {
            Ok(self.row_at_zero())
        }
    }

    /// How many rows the backend-state table holds.
    fn row_count(&self) -> (r: usize)
        ensures
            r == self.spec_rows().len(),
    {
        self.tx.backend_row_count()
    }

    /// The first row of the backend-state table.
    fn row_at_zero(&self) -> (r: (u64, BackendState))
        requires
            self.spec_rows().len() > 0,
        ensures
            r == self.spec_rows()[0],
    {
        self.tx.backend_row_at(0)
    }

    /// The backend state: fails if the table does not hold exactly one row.
    pub fn get_backend_state(&self) -> (r: Result<BackendState, BackendStateError>)
        requires
            self.wf(),
        ensures
            match r {
                Ok(state) => self.spec_rows().len() == 1 && state == self.spec_rows()[0].1,
                Err(BackendStateError::NoBackendState) => self.spec_rows().len() == 0,
                Err(BackendStateError::MultipleBackendStates) => self.spec_rows().len() > 1,
                Err(_) => false,
            },
    {
        let row = self.get_backend_state_row()?;
        Ok(row.1)
    }

    /// Fails with a user-visible error if the backend is not running: the
    /// nested result separates system errors (outer) from user errors
    /// (inner), each paused, disabled, or suspended state giving its own
    /// message.
    pub fn fail_while_not_running(&self) -> (r: Result<
        Result<(), JsError>,
        BackendStateError,
    >)
        requires
            self.wf(),
        ensures
            match r {
                Ok(inner) => self.spec_rows().len() == 1 && (match self.spec_rows()[0].1 {
                    BackendState::Running => inner matches Ok(()),
                    BackendState::Paused => inner matches Err(e) && e.message@
                        == "Cannot run functions while this deployment is paused. Resume the deployment in the dashboard settings to allow functions to run."@,
                    BackendState::Disabled => inner matches Err(e) && e.message@
                        == "You have exceeded the free plan limits, so your deployments have been disabled. Please upgrade to a Pro plan or reach out to us at support@convex.dev for help."@,
                    BackendState::Suspended => inner matches Err(e) && e.message@
                        == "Cannot run functions while this deployment is suspended. Please contact Convex if you believe this is a mistake."@,
                }),
                Err(BackendStateError::NoBackendState) => self.spec_rows().len() == 0,
                Err(BackendStateError::MultipleBackendStates) => self.spec_rows().len() > 1,
                Err(_) => false,
            },
    {
        let backend_state = self.get_backend_state()?;
        match backend_state {
            BackendState::Running => Ok(Ok(())),
            BackendState::Paused => Ok(
                Err(JsError::from_message(paused_error_message().to_owned())),
            ),
            BackendState::Disabled => Ok(
                Err(JsError::from_message(disabled_error_message().to_owned())),
            ),
            BackendState::Suspended => Ok(
                Err(JsError::from_message(suspended_error_message().to_owned())),
            ),
        }
    }

    /// Moves the deployment to a new state: a bad request if it is already
    /// there, otherwise the single row is replaced in place.
    pub fn toggle_backend_state(&mut self, new_state: BackendState) -> (r: Result<
        (),
        BackendStateError,
    >)
        requires
            old(self).wf(),
        ensures
            final(self).wf(),
            final(self).spec_transaction().spec_documents() == old(self).spec_transaction().spec_documents(),
            match r {
                Ok(()) => {
                    &&& old(self).spec_rows().len() == 1
                    &&& old(self).spec_rows()[0].1 != new_state
                    &&& final(self).spec_rows().len() == 1
                    &&& final(self).spec_rows()[0] == (old(self).spec_rows()[0].0, new_state)
                },
                Err(BackendStateError::DeploymentAlreadyInState(s)) => {
                    &&& old(self).spec_rows().len() == 1
                    &&& old(self).spec_rows()[0].1 == new_state
                    &&& s == new_state
                    &&& final(self).spec_rows() == old(self).spec_rows()
                },
                Err(BackendStateError::NoBackendState) => old(self).spec_rows().len() == 0 && final(self).spec_rows() == old(self).spec_rows(),
                Err(BackendStateError::MultipleBackendStates) => old(self).spec_rows().len() > 1
                    && final(self).spec_rows() == old(self).spec_rows(),
            },
    {
        let row = match self.get_backend_state_row() {
            Ok(row) => row,
            Err(e) => {
                return Err(e);
            },
        };
        let (id, current_state) = row;
        if current_state == new_state {
            return Err(BackendStateError::DeploymentAlreadyInState(new_state));
        }
        match self.tx.replace_backend_row(id, new_state) {
            Ok(()) => {
                proof {
                    assert(self.spec_rows()[0] == (id, new_state));
                }
                Ok(())
            },
            Err(TransactionError::DocumentNotFound) => {
                proof {
                    assert(false);
                }
                Err(BackendStateError::NoBackendState)
            },
        }
    }
}

} // verus!
