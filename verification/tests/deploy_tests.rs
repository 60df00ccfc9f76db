use tilt::deploy::{interpret_build_outcome, BuildOutcome, Deploy, DeployAction, UploadOutcome};
use tilt::errors::CoreError;
use tilt::store::{Credential, CredentialStore};

const BASE: &str = "https://production.tilt.rest";

const MANIFEST: &str = "[package]\nname = \"my-project\"\ndescription = \"A thing\"\n";

fn store_with_credentials() -> CredentialStore {
    let mut store = CredentialStore::new(true);
    store.save_auth_token(&Credential::new("tok\n".to_string())).unwrap();
    store.save_selected_organization_id("o1").unwrap();
    store
}

fn is_network_action(action: &DeployAction) -> bool {
    matches!(action, DeployAction::Upload { .. })
}

#[test]
fn build_failure_stops_before_packaging_and_upload() {
    let store = store_with_credentials();
    let mut pipeline = Deploy::new(BASE.to_string());
    let first = pipeline.start();
    assert!(matches!(first, DeployAction::RunBuild));
    let next = pipeline.on_build_outcome(BuildOutcome::Completed { success: false }, &store);
    assert!(matches!(next, DeployAction::Stop));
    assert!(!is_network_action(&next));
    assert!(matches!(pipeline.outcome(), Err(CoreError::BuildFailed)));
}

#[test]
fn toolchain_launch_failure_is_its_own_error() {
    let store = store_with_credentials();
    let mut pipeline = Deploy::new(BASE.to_string());
    pipeline.start();
    let next = pipeline.on_build_outcome(BuildOutcome::LaunchFailed, &store);
    assert!(matches!(next, DeployAction::Stop));
    assert!(matches!(
        pipeline.outcome(),
        Err(CoreError::ToolchainUnavailable)
    ));
}

#[test]
fn deploy_without_credential_is_not_authenticated_and_never_uploads() {
    let store = CredentialStore::new(true);
    let mut network_calls: usize = 0;
    let mut pipeline = Deploy::new(BASE.to_string());
    let first = pipeline.start();
    if is_network_action(&first) {
        network_calls += 1;
    }
    let next = pipeline.on_build_outcome(BuildOutcome::Completed { success: true }, &store);
    if is_network_action(&next) {
        network_calls += 1;
    }
    assert!(matches!(next, DeployAction::Stop));
    assert!(matches!(pipeline.outcome(), Err(CoreError::NotAuthenticated)));
    assert_eq!(network_calls, 0);
}

#[test]
fn deploy_without_organization_is_no_organization_selected() {
    let mut store = CredentialStore::new(true);
    store.save_auth_token(&Credential::new("tok".to_string())).unwrap();
    let mut pipeline = Deploy::new(BASE.to_string());
    pipeline.start();
    let next = pipeline.on_build_outcome(BuildOutcome::Completed { success: true }, &store);
    assert!(matches!(next, DeployAction::Stop));
    assert!(matches!(
        pipeline.outcome(),
        Err(CoreError::NoOrganizationSelected)
    ));
}

#[test]
fn a_created_201_upload_means_deployed() {
    let store = store_with_credentials();
    let mut pipeline = Deploy::new(BASE.to_string());
    pipeline.start();
    let after_build =
        pipeline.on_build_outcome(BuildOutcome::Completed { success: true }, &store);
    assert!(matches!(after_build, DeployAction::ReadManifest));
    let after_manifest = pipeline.on_manifest(Some(MANIFEST.to_string()));
    match &after_manifest {
        DeployAction::ReadArtifact { path } => {
            assert_eq!(path, "./target/wasm32-unknown-unknown/release/my_project.wasm");
        }
        other => panic!("unexpected action {:?}", other),
    }
    let after_artifact = pipeline.on_artifact(Some(vec![0, 97, 115, 109]));
    match &after_artifact {
        DeployAction::Upload { url, token, request } => {
            assert_eq!(url, "https://production.tilt.rest/programs");
            assert_eq!(token, "tok");
            assert_eq!(request.name, "my-project");
            assert_eq!(request.description, "A thing");
            assert_eq!(request.organization_id, "o1");
            assert_eq!(request.artifact_bytes, vec![0, 97, 115, 109]);
        }
        other => panic!("unexpected action {:?}", other),
    }
    let last = pipeline.on_upload_outcome(UploadOutcome::Response {
        status: 201,
        body: String::new(),
    });
    assert!(matches!(last, DeployAction::Stop));
    assert!(pipeline.outcome().is_ok());
}

#[test]
fn a_422_upload_is_rejected_with_status_and_body() {
    let store = store_with_credentials();
    let mut pipeline = Deploy::new(BASE.to_string());
    pipeline.start();
    pipeline.on_build_outcome(BuildOutcome::Completed { success: true }, &store);
    pipeline.on_manifest(Some(MANIFEST.to_string()));
    pipeline.on_artifact(Some(vec![1, 2, 3]));
    pipeline.on_upload_outcome(UploadOutcome::Response {
        status: 422,
        body: "{\"error\":\"bad name\"}".to_string(),
    });
    match pipeline.outcome() {
        Err(CoreError::DeployRejected { status, body }) => {
            assert_eq!(*status, 422);
            assert_eq!(body, "{\"error\":\"bad name\"}");
        }
        other => panic!("unexpected outcome {:?}", other),
    }
}

#[test]
fn a_transport_failure_is_a_network_error() {
    let store = store_with_credentials();
    let mut pipeline = Deploy::new(BASE.to_string());
    pipeline.start();
    pipeline.on_build_outcome(BuildOutcome::Completed { success: true }, &store);
    pipeline.on_manifest(Some(MANIFEST.to_string()));
    pipeline.on_artifact(Some(vec![1]));
    pipeline.on_upload_outcome(UploadOutcome::TransportFailure);
    assert!(matches!(pipeline.outcome(), Err(CoreError::NetworkError)));
}

#[test]
fn a_missing_artifact_is_artifact_not_found() {
    let store = store_with_credentials();
    let mut pipeline = Deploy::new(BASE.to_string());
    pipeline.start();
    pipeline.on_build_outcome(BuildOutcome::Completed { success: true }, &store);
    pipeline.on_manifest(Some(MANIFEST.to_string()));
    let next = pipeline.on_artifact(None);
    assert!(matches!(next, DeployAction::Stop));
    assert!(matches!(pipeline.outcome(), Err(CoreError::ArtifactNotFound)));
}

#[test]
fn an_unreadable_manifest_is_a_storage_error() {
    let store = store_with_credentials();
    let mut pipeline = Deploy::new(BASE.to_string());
    pipeline.start();
    pipeline.on_build_outcome(BuildOutcome::Completed { success: true }, &store);
    let next = pipeline.on_manifest(None);
    assert!(matches!(next, DeployAction::Stop));
    assert!(matches!(pipeline.outcome(), Err(CoreError::StorageError)));
}

#[test]
fn a_manifest_without_a_package_name_is_a_storage_error() {
    let store = store_with_credentials();
    let mut pipeline = Deploy::new(BASE.to_string());
    pipeline.start();
    pipeline.on_build_outcome(BuildOutcome::Completed { success: true }, &store);
    let next = pipeline.on_manifest(Some("[package]\nversion = \"0.1.0\"\n".to_string()));
    assert!(matches!(next, DeployAction::Stop));
    assert!(matches!(pipeline.outcome(), Err(CoreError::StorageError)));
}

#[test]
fn the_uploaded_token_and_organization_are_the_stored_ones_trimmed() {
    let mut store = CredentialStore::new(true);
    store
        .save_auth_token(&Credential::new("  spaced-token  ".to_string()))
        .unwrap();
    store.save_selected_organization_id(" o9 ").unwrap();
    let mut pipeline = Deploy::new(BASE.to_string());
    pipeline.start();
    pipeline.on_build_outcome(BuildOutcome::Completed { success: true }, &store);
    pipeline.on_manifest(Some(MANIFEST.to_string()));
    let action = pipeline.on_artifact(Some(vec![5]));
    match &action {
        DeployAction::Upload { token, request, .. } => {
            assert_eq!(token, "spaced-token");
            assert_eq!(request.organization_id, "o9");
        }
        other => panic!("unexpected action {:?}", other),
    }
}

#[test]
fn build_verdicts_tell_a_missing_toolchain_from_a_failing_build() {
    assert!(interpret_build_outcome(&BuildOutcome::Completed { success: true }).is_ok());
    assert!(matches!(
        interpret_build_outcome(&BuildOutcome::Completed { success: false }),
        Err(CoreError::BuildFailed)
    ));
    assert!(matches!(
        interpret_build_outcome(&BuildOutcome::LaunchFailed),
        Err(CoreError::ToolchainUnavailable)
    ));
}
