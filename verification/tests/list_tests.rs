use tilt::errors::CoreError;
use tilt::list::{List, ListOutcome};
use tilt::program::Program;
use tilt::response::Response;
use tilt::store::{Credential, CredentialStore};

fn page_of(data: Option<Vec<Program>>) -> ListOutcome {
    ListOutcome::Response(Response {
        data,
        message: None,
        page: Some(1),
        page_size: Some(100),
        total_items: Some(0),
        total_pages: Some(0),
    })
}

#[test]
fn an_empty_data_listing_is_a_success_with_no_programs() {
    let lister = List {};
    let programs = lister.interpret(page_of(Some(Vec::new()))).unwrap();
    assert!(programs.is_empty());
}

#[test]
fn an_absent_data_listing_is_also_empty() {
    let lister = List {};
    let programs = lister.interpret(page_of(None)).unwrap();
    assert!(programs.is_empty());
}

#[test]
fn a_populated_listing_is_returned_as_sent() {
    let lister = List {};
    let one = Program {
        id: Some("p1".to_string()),
        name: Some("alpha".to_string()),
        description: Some("first".to_string()),
        ..Program::default()
    };
    let two = Program { name: Some("beta".to_string()), ..Program::default() };
    let programs = lister.interpret(page_of(Some(vec![one, two]))).unwrap();
    assert_eq!(programs.len(), 2);
    assert_eq!(programs[0].name.as_deref(), Some("alpha"));
    assert_eq!(programs[1].name.as_deref(), Some("beta"));
}

#[test]
fn a_listing_transport_failure_is_a_network_error() {
    let lister = List {};
    assert!(matches!(
        lister.interpret(ListOutcome::TransportFailure),
        Err(CoreError::NetworkError)
    ));
}

#[test]
fn listing_requires_a_stored_credential() {
    let lister = List {};
    let store = CredentialStore::new(true);
    assert!(matches!(
        lister.prepare(&store),
        Err(CoreError::NotAuthenticated)
    ));
}

#[test]
fn listing_requires_a_selected_organization() {
    let lister = List {};
    let mut store = CredentialStore::new(true);
    store.save_auth_token(&Credential::new("tok".to_string())).unwrap();
    assert!(matches!(
        lister.prepare(&store),
        Err(CoreError::NoOrganizationSelected)
    ));
}

#[test]
fn a_prepared_listing_asks_for_the_first_hundred() {
    let lister = List {};
    let mut store = CredentialStore::new(true);
    store.save_auth_token(&Credential::new(" tok ".to_string())).unwrap();
    store.save_selected_organization_id("o1").unwrap();
    let request = lister.prepare(&store).unwrap();
    assert_eq!(request.page, 1);
    assert_eq!(request.page_size, 100);
    assert_eq!(request.organization_id, "o1");
    assert_eq!(request.token, "tok");
}
