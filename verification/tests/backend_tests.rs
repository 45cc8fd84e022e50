//! The backend-state model and the test-facing document writer over one
//! transaction.

use isolate_host::backend_state::BackendState;
use isolate_host::backend_state::BackendStateError;
use isolate_host::backend_state::BackendStateModel;
use isolate_host::backend_state::BackendStateTable;
use isolate_host::test_facing::TestFacingModel;
use isolate_host::transaction::Transaction;
use isolate_host::transaction::TransactionError;
use isolate_host::values::ConvexObject;
use isolate_host::values::ConvexValue;

fn message(body: &str) -> ConvexObject {
    ConvexObject {
        fields: vec![("body".to_string(), ConvexValue::String(body.to_string()))],
    }
}

#[test]
fn test_toggle_backend_state() {
    let mut model = BackendStateModel::new(Transaction::new());
    model.initialize();
    let starting_state = model.get_backend_state().unwrap();
    assert_eq!(starting_state, BackendState::Running);
    model.toggle_backend_state(BackendState::Paused).unwrap();
    let new_state = model.get_backend_state().unwrap();
    assert_eq!(new_state, BackendState::Paused);

    // fail to toggle to the same state
    let err = model.toggle_backend_state(BackendState::Paused).unwrap_err();
    assert_eq!(err, BackendStateError::DeploymentAlreadyInState(BackendState::Paused));
}

#[test]
fn backend_without_a_state_is_an_error() {
    let model = BackendStateModel::new(Transaction::new());
    assert_eq!(model.get_backend_state().unwrap_err(), BackendStateError::NoBackendState);
    assert_eq!(
        model.fail_while_not_running().unwrap_err(),
        BackendStateError::NoBackendState
    );
}

#[test]
fn backend_with_two_states_is_an_error() {
    let mut model = BackendStateModel::new(Transaction::new());
    model.initialize();
    model.initialize();
    assert_eq!(
        model.get_backend_state().unwrap_err(),
        BackendStateError::MultipleBackendStates
    );
}

#[test]
fn functions_fail_with_the_right_message_per_state() {
    let mut model = BackendStateModel::new(Transaction::new());
    model.initialize();
    assert!(model.fail_while_not_running().unwrap().is_ok());

    model.toggle_backend_state(BackendState::Paused).unwrap();
    let err = model.fail_while_not_running().unwrap().unwrap_err();
    assert_eq!(
        err.message,
        "Cannot run functions while this deployment is paused. Resume the deployment in the \
         dashboard settings to allow functions to run."
    );

    model.toggle_backend_state(BackendState::Disabled).unwrap();
    let err = model.fail_while_not_running().unwrap().unwrap_err();
    assert_eq!(
        err.message,
        "You have exceeded the free plan limits, so your deployments have been disabled. Please \
         upgrade to a Pro plan or reach out to us at support@convex.dev for help."
    );

    model.toggle_backend_state(BackendState::Suspended).unwrap();
    let err = model.fail_while_not_running().unwrap().unwrap_err();
    assert_eq!(
        err.message,
        "Cannot run functions while this deployment is suspended. Please contact Convex if you \
         believe this is a mistake."
    );
}

#[test]
fn backend_state_table_shape() {
    let table = BackendStateTable;
    assert_eq!(table.table_name(), "_backend_state");
    assert!(table.indexes().is_empty());
}

#[test]
fn inserted_documents_get_fresh_ids() {
    let mut model = TestFacingModel::new(Transaction::new());
    let first = model.insert("messages".to_string(), message("one"));
    let second = model.insert("messages".to_string(), message("two"));
    assert_ne!(first, second);

    let tx = model.into_transaction();
    let doc = tx.get_document(first).unwrap();
    assert_eq!(doc.table, "messages");
    assert_eq!(doc.value, message("one"));
}

#[test]
fn replace_keeps_the_table_and_misses_unknown_ids() {
    let mut model = TestFacingModel::new(Transaction::new());
    let id = model.insert("messages".to_string(), message("old"));
    model.replace(id, message("new")).unwrap();
    assert_eq!(
        model.replace(9999, message("nowhere")).unwrap_err(),
        TransactionError::DocumentNotFound
    );
    let tx = model.into_transaction();
    let doc = tx.get_document(id).unwrap();
    assert_eq!(doc.table, "messages");
    assert_eq!(doc.value, message("new"));
}

#[test]
fn insert_and_get_reads_the_document_it_wrote() {
    let mut model = TestFacingModel::new(Transaction::new());
    let doc = model.insert_and_get("users".to_string(), message("me"));
    assert_eq!(doc.table, "users");
    assert_eq!(doc.value, message("me"));
}
