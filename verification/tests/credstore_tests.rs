use std::sync::Once;

use assistant_shim::credstore::clear_token;
use assistant_shim::credstore::clear_token_with;
use assistant_shim::credstore::get_token;
use assistant_shim::credstore::get_token_with;
use assistant_shim::credstore::interpret_delete;
use assistant_shim::credstore::interpret_retrieve;
use assistant_shim::credstore::interpret_store;
use assistant_shim::credstore::store_token;
use assistant_shim::credstore::store_token_with;
use assistant_shim::credstore::DeleteOutcome;
use assistant_shim::credstore::RetrieveOutcome;
use assistant_shim::credstore::StoreOutcome;
use assistant_shim::credstore::SERVICE_NAME;
use assistant_shim::credstore::TOKEN_ACCOUNT;

static MOCK_STORE: Once = Once::new();

fn use_mock_store() {
    MOCK_STORE.call_once(|| {
        keyring::set_default_credential_builder(keyring::mock::default_credential_builder());
    });
}

fn mock_entry() -> keyring::Entry {
    use_mock_store();
    keyring::Entry::new(SERVICE_NAME, TOKEN_ACCOUNT).expect("mock store always builds a handle")
}

#[test]
fn store_then_retrieve_returns_the_stored_value() {
    let entry = mock_entry();
    store_token_with(&entry, "tok-secret-1").expect("store must succeed");
    let read = get_token_with(&entry).expect("retrieve must succeed");
    assert_eq!(read, Some("tok-secret-1".to_string()));
}

#[test]
fn store_overwrites_the_previous_value() {
    let entry = mock_entry();
    store_token_with(&entry, "first").expect("store must succeed");
    store_token_with(&entry, "second").expect("overwrite must succeed");
    let read = get_token_with(&entry).expect("retrieve must succeed");
    assert_eq!(read, Some("second".to_string()));
}

#[test]
fn clear_then_retrieve_reports_absent_not_an_error() {
    let entry = mock_entry();
    store_token_with(&entry, "tok-secret-2").expect("store must succeed");
    clear_token_with(&entry).expect("clear must succeed");
    let read = get_token_with(&entry).expect("retrieve after clear must still succeed");
    assert_eq!(read, None);
}

#[test]
fn retrieve_without_store_reports_absent() {
    let entry = mock_entry();
    let read = get_token_with(&entry).expect("retrieve must succeed");
    assert_eq!(read, None);
}

#[test]
fn clearing_an_absent_token_succeeds_twice() {
    let entry = mock_entry();
    clear_token_with(&entry).expect("clearing an absent token must succeed");
    clear_token_with(&entry).expect("clearing it again must succeed too");
}

#[test]
fn fixed_store_names_are_exact() {
    assert_eq!(SERVICE_NAME, "shopping-assistant");
    assert_eq!(TOKEN_ACCOUNT, "access_token");
}

#[test]
fn adapter_entry_points_run_against_the_store() {
    use_mock_store();
    store_token("tok-top-level").expect("store must succeed");
    // The mock store keeps each secret in its handle, so a fresh handle
    // starts empty: absence is an ordinary result here, not an error.
    assert_eq!(get_token().expect("retrieve must succeed"), None);
    clear_token().expect("clear must succeed");
}

#[test]
fn outcome_interpretation_is_exact() {
    assert!(matches!(interpret_store(StoreOutcome::Stored), Ok(())));
    let err = interpret_store(StoreOutcome::Failure("store locked".to_string()))
        .expect_err("failure outcome must be an error");
    assert_eq!(err.text(), "store locked");

    assert_eq!(
        interpret_retrieve(RetrieveOutcome::Present("tok".to_string())).expect("present is ok"),
        Some("tok".to_string())
    );
    assert_eq!(interpret_retrieve(RetrieveOutcome::Absent).expect("absent is ok"), None);
    let err = interpret_retrieve(RetrieveOutcome::Failure("denied".to_string()))
        .expect_err("failure outcome must be an error");
    assert_eq!(err.text(), "denied");

    assert!(matches!(interpret_delete(DeleteOutcome::Deleted), Ok(())));
    assert!(matches!(interpret_delete(DeleteOutcome::Absent), Ok(())));
    let err = interpret_delete(DeleteOutcome::Failure("io failure".to_string()))
        .expect_err("failure outcome must be an error");
    assert_eq!(err.text(), "io failure");
}
