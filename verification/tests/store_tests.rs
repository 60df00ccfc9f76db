use tilt::errors::CoreError;
use tilt::store::{Credential, CredentialStore, FileSlot};

#[test]
fn round_trip_trims_saved_token() {
    let mut store = CredentialStore::new(true);
    let credential = Credential::new("  tok \n".to_string());
    store.save_auth_token(&credential).unwrap();
    assert_eq!(store.load_auth_token().unwrap(), "tok");
}

#[test]
fn round_trip_keeps_plain_token() {
    let mut store = CredentialStore::new(true);
    let credential = Credential::new("abc123".to_string());
    store.save_auth_token(&credential).unwrap();
    assert_eq!(store.load_auth_token().unwrap(), "abc123");
}

#[test]
fn a_saved_credential_never_loads_back_empty() {
    let mut store = CredentialStore::new(true);
    let credential = Credential::new(" \u{00A0}tok\u{3000} \n".to_string());
    store.save_auth_token(&credential).unwrap();
    let loaded = store.load_auth_token().unwrap();
    assert_eq!(loaded, "tok");
    assert!(!loaded.is_empty());
}

#[test]
fn saving_organization_twice_is_idempotent() {
    let mut store = CredentialStore::new(true);
    store.save_selected_organization_id("org-1").unwrap();
    store.save_selected_organization_id("org-1").unwrap();
    assert_eq!(store.load_selected_organization_id().unwrap(), "org-1");
}

#[test]
fn loading_missing_token_is_not_authenticated() {
    let store = CredentialStore::new(true);
    assert!(matches!(
        store.load_auth_token(),
        Err(CoreError::NotAuthenticated)
    ));
}

#[test]
fn loading_missing_organization_is_no_organization_selected() {
    let store = CredentialStore::new(true);
    assert!(matches!(
        store.load_selected_organization_id(),
        Err(CoreError::NoOrganizationSelected)
    ));
}

#[test]
fn unreadable_token_file_is_a_storage_error() {
    let store = CredentialStore {
        has_root: true,
        auth_token: FileSlot::Unreadable,
        organization_id_selected: FileSlot::Missing,
    };
    assert!(matches!(store.load_auth_token(), Err(CoreError::StorageError)));
}

#[test]
fn saving_without_a_root_is_a_storage_error_and_writes_nothing() {
    let mut store = CredentialStore::new(false);
    let credential = Credential::new("tok".to_string());
    assert!(matches!(
        store.save_auth_token(&credential),
        Err(CoreError::StorageError)
    ));
    assert!(matches!(
        store.save_selected_organization_id("org-1"),
        Err(CoreError::StorageError)
    ));
    assert!(matches!(
        store.load_auth_token(),
        Err(CoreError::NotAuthenticated)
    ));
    assert!(matches!(
        store.load_selected_organization_id(),
        Err(CoreError::NoOrganizationSelected)
    ));
}

#[test]
fn stored_token_is_trimmed_at_load_not_at_save() {
    let mut store = CredentialStore::new(true);
    let credential = Credential::new("\t token with spaces inside \n".to_string());
    store.save_auth_token(&credential).unwrap();
    assert_eq!(store.load_auth_token().unwrap(), "token with spaces inside");
}
