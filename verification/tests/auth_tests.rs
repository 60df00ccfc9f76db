use tilt::auth::{parse_choice, AuthSession, AuthState, Signin};
use tilt::errors::CoreError;
use tilt::organization::Organization;
use tilt::store::CredentialStore;

fn two_organizations() -> Vec<Organization> {
    vec![
        Organization { id: "o1".to_string(), name: "Acme".to_string() },
        Organization { id: "o2".to_string(), name: "Globex".to_string() },
    ]
}

#[test]
fn parse_choice_reads_plain_numbers() {
    assert_eq!(parse_choice("2"), 2);
    assert_eq!(parse_choice(" 7 \n"), 7);
    assert_eq!(parse_choice("10"), 10);
}

#[test]
fn parse_choice_reads_garbage_as_zero() {
    assert_eq!(parse_choice(""), 0);
    assert_eq!(parse_choice("   "), 0);
    assert_eq!(parse_choice("abc"), 0);
    assert_eq!(parse_choice("1a"), 0);
    assert_eq!(parse_choice("-3"), 0);
    assert_eq!(parse_choice("99999999999999999999999999999999"), 0);
}

#[test]
fn choice_zero_is_invalid_and_keeps_the_session_waiting() {
    let mut session = AuthSession::new();
    session.begin("tok".to_string(), two_organizations());
    assert!(matches!(
        session.choose_organization(0),
        Err(CoreError::InvalidChoice)
    ));
    assert!(matches!(
        session.state,
        AuthState::AwaitingOrganizationChoice { .. }
    ));
}

#[test]
fn choice_past_the_end_is_invalid_and_keeps_the_session_waiting() {
    let mut session = AuthSession::new();
    session.begin("tok".to_string(), two_organizations());
    assert!(matches!(
        session.choose_organization(3),
        Err(CoreError::InvalidChoice)
    ));
    assert!(matches!(
        session.state,
        AuthState::AwaitingOrganizationChoice { .. }
    ));
}

#[test]
fn any_choice_on_an_empty_listing_is_invalid() {
    let mut session = AuthSession::new();
    session.begin("tok".to_string(), Vec::new());
    assert!(matches!(
        session.choose_organization(1),
        Err(CoreError::InvalidChoice)
    ));
}

#[test]
fn an_invalid_choice_can_be_retried() {
    let mut session = AuthSession::new();
    session.begin("tok".to_string(), two_organizations());
    assert!(session.choose_organization(9).is_err());
    assert!(session.choose_organization(1).is_ok());
    match &session.state {
        AuthState::ConfirmingSelection { organization_id, .. } => {
            assert_eq!(organization_id, "o1");
        }
        other => panic!("unexpected state {:?}", other),
    }
}

#[test]
fn operator_input_two_selects_the_second_organization() {
    let mut store = CredentialStore::new(true);
    let mut session = AuthSession::new();
    session.begin("first-token".to_string(), two_organizations());
    let choice = parse_choice("2\n");
    session.choose_organization(choice).unwrap();
    session.confirm("rotated-token".to_string());
    session.finalize(&mut store).unwrap();
    assert_eq!(store.load_selected_organization_id().unwrap(), "o2");
    assert_eq!(store.load_auth_token().unwrap(), "rotated-token");
}

#[test]
fn finalize_persists_the_rotated_token_not_the_first_one() {
    let mut store = CredentialStore::new(true);
    let mut session = AuthSession::new();
    session.begin("first-token".to_string(), two_organizations());
    session.choose_organization(1).unwrap();
    session.confirm("second-token".to_string());
    session.finalize(&mut store).unwrap();
    assert_eq!(store.load_auth_token().unwrap(), "second-token");
    assert_eq!(store.load_selected_organization_id().unwrap(), "o1");
}

#[test]
fn finalize_without_a_root_persists_nothing() {
    let mut store = CredentialStore::new(false);
    let mut session = AuthSession::new();
    session.begin("tok".to_string(), two_organizations());
    session.choose_organization(1).unwrap();
    session.confirm("tok2".to_string());
    assert!(matches!(
        session.finalize(&mut store),
        Err(CoreError::StorageError)
    ));
    assert!(matches!(
        store.load_auth_token(),
        Err(CoreError::NotAuthenticated)
    ));
    assert!(matches!(
        store.load_selected_organization_id(),
        Err(CoreError::NoOrganizationSelected)
    ));
}

#[test]
fn single_step_signin_persists_token_and_organization() {
    let mut store = CredentialStore::new(true);
    let signin = Signin::new("key-123".to_string());
    assert_eq!(signin.secret_key, "key-123");
    signin.complete(&mut store, "tok", "default-org").unwrap();
    assert_eq!(store.load_auth_token().unwrap(), "tok");
    assert_eq!(store.load_selected_organization_id().unwrap(), "default-org");
}

#[test]
fn a_listing_response_feeds_the_session() {
    let listing = tilt::organization::OrganizationsResponse { data: two_organizations() };
    let mut session = AuthSession::new();
    session.begin("tok".to_string(), listing.data);
    assert!(session.choose_organization(2).is_ok());
    match &session.state {
        AuthState::ConfirmingSelection { organization_id, .. } => {
            assert_eq!(organization_id, "o2");
        }
        other => panic!("unexpected state {:?}", other),
    }
}
