//! The deploy pipeline, as one state machine driven by the host.
//!
//! Each step gates the next: the build must succeed; then the stored
//! credential and organization selection must both load — checked locally,
//! before any network call; then the manifest yields the metadata and the
//! artifact is read at the derived path; only then is the one upload
//! issued, and its response classified. The host performs the subprocess,
//! filesystem and network work an action asks for and reports the outcome
//! back; every decision in between is made, and verified, here against
//! the transition function `deploy_step`.

use crate::errors::{CoreError, ErrorView};
use crate::helpers::{artifact_path, get_package_metadata, package_metadata_spec, programs_url};
use crate::store::{CredentialStore, SlotView, StoreView};
use crate::text::{sanitized, trim_spec};
use vstd::prelude::*;

verus! {

/// The fixed MIME type the artifact is uploaded under.
pub const ARTIFACT_MIME: &'static str = "application/wasm";

/// What the upload carries: the project metadata, the selected
/// organization, and the artifact's raw bytes, untransformed.
#[derive(Debug)]
pub struct DeployRequest {
    pub name: String,
    pub description: String,
    pub organization_id: String,
    pub artifact_bytes: Vec<u8>,
}

/// How the build step ended, as the host observed the toolchain.
#[derive(Clone, Copy, Debug)]
pub enum BuildOutcome {
    /// The toolchain ran to completion; `success` is its exit status.
    Completed { success: bool },
    /// The toolchain could not be launched at all.
    LaunchFailed,
}

/// How the upload ended, as the host observed it.
#[derive(Clone, Debug)]
pub enum UploadOutcome {
    /// An HTTP response, whatever its status, with its body text.
    Response { status: u16, body: String },
    /// No response at all: a transport failure or a timeout.
    TransportFailure,
}

/// The mathematical value of an `UploadOutcome`.
pub enum UploadOutcomeView {
    Response { status: u16, body: Seq<char> },
    TransportFailure,
}

impl View for UploadOutcome {
    type V = UploadOutcomeView;

    open spec fn view(&self) -> UploadOutcomeView {
        match self {
            UploadOutcome::Response { status, body } => UploadOutcomeView::Response {
                status: *status,
                body: body@,
            },
            UploadOutcome::TransportFailure => UploadOutcomeView::TransportFailure,
        }
    }
}

/// Where one deploy invocation stands.
#[derive(Debug)]
pub enum DeployState {
    /// Nothing has happened yet.
    Start,
    /// The build is running.
    AwaitingBuild,
    /// Build and credential checks passed; the manifest is being read.
    AwaitingManifest { token: String, organization_id: String },
    /// The metadata is in hand; the artifact is being read at the derived
    /// path.
    AwaitingArtifact {
        token: String,
        organization_id: String,
        name: String,
        description: String,
    },
    /// The one upload is in flight.
    AwaitingUpload,
    /// The pipeline is over.
    Finished { outcome: Result<(), CoreError> },
}

/// The mathematical value of a `DeployState`.
pub enum DeployStateView {
    Start,
    AwaitingBuild,
    AwaitingManifest { token: Seq<char>, organization_id: Seq<char> },
    AwaitingArtifact {
        token: Seq<char>,
        organization_id: Seq<char>,
        name: Seq<char>,
        description: Seq<char>,
    },
    AwaitingUpload,
    Finished { outcome: Result<(), ErrorView> },
}

impl View for DeployState {
    type V = DeployStateView;

    open spec fn view(&self) -> DeployStateView {
        match self {
            DeployState::Start => DeployStateView::Start,
            DeployState::AwaitingBuild => DeployStateView::AwaitingBuild,
            DeployState::AwaitingManifest { token, organization_id } => {
                DeployStateView::AwaitingManifest {
                    token: token@,
                    organization_id: organization_id@,
                }
            },
            DeployState::AwaitingArtifact { token, organization_id, name, description } => {
                DeployStateView::AwaitingArtifact {
                    token: token@,
                    organization_id: organization_id@,
                    name: name@,
                    description: description@,
                }
            },
            DeployState::AwaitingUpload => DeployStateView::AwaitingUpload,
            DeployState::Finished { outcome } => DeployStateView::Finished {
                outcome: match outcome {
                    Ok(_) => Ok(()),
                    Err(e) => Err(e@),
                },
            },
        }
    }
}

/// One observation the host reports back to the pipeline, as a
/// mathematical value. The build observation carries what the credential
/// store held at that moment, since that is what the following check
/// reads.
pub enum DeployEventView {
    BuildDone { outcome: BuildOutcome, store: StoreView },
    ManifestRead { text: Option<Seq<char>> },
    ArtifactRead { bytes: Option<Seq<u8>> },
    UploadDone { outcome: UploadOutcomeView },
}

/// A pipeline that has failed with `e`.
pub open spec fn finished_err(e: ErrorView) -> DeployStateView {
    DeployStateView::Finished { outcome: Err(e) }
}

/// The pipeline's transition function. An observation that does not
/// belong to the state leaves the state unchanged, and a finished
/// pipeline stays finished.
pub open spec fn deploy_step(s: DeployStateView, e: DeployEventView) -> DeployStateView {
    match (s, e) {
        (DeployStateView::AwaitingBuild, DeployEventView::BuildDone { outcome, store }) => {
            match outcome {
                BuildOutcome::LaunchFailed => finished_err(ErrorView::ToolchainUnavailable),
                BuildOutcome::Completed { success } => {
                    if !success {
                        finished_err(ErrorView::BuildFailed)
                    } else {
                        match store.auth_token {
                            SlotView::Missing => finished_err(ErrorView::NotAuthenticated),
                            SlotView::Unreadable => finished_err(ErrorView::StorageError),
                            SlotView::Contents(t) => match store.organization_id_selected {
                                SlotView::Missing => finished_err(
                                    ErrorView::NoOrganizationSelected,
                                ),
                                SlotView::Unreadable => finished_err(ErrorView::StorageError),
                                SlotView::Contents(o) => DeployStateView::AwaitingManifest {
                                    token: trim_spec(t),
                                    organization_id: trim_spec(o),
                                },
                            },
                        }
                    }
                },
            }
        },
        (
            DeployStateView::AwaitingManifest { token, organization_id },
            DeployEventView::ManifestRead { text },
        ) => {
            match text {
                None => finished_err(ErrorView::StorageError),
                Some(t) => match package_metadata_spec(t) {
                    None => finished_err(ErrorView::StorageError),
                    Some(nd) => DeployStateView::AwaitingArtifact {
                        token,
                        organization_id,
                        name: nd.0,
                        description: nd.1,
                    },
                },
            }
        },
        (DeployStateView::AwaitingArtifact { .. }, DeployEventView::ArtifactRead { bytes }) => {
            match bytes {
                None => finished_err(ErrorView::ArtifactNotFound),
                Some(_) => DeployStateView::AwaitingUpload,
            }
        },
        (DeployStateView::AwaitingUpload, DeployEventView::UploadDone { outcome }) => {
            match outcome {
                UploadOutcomeView::TransportFailure => finished_err(ErrorView::NetworkError),
                UploadOutcomeView::Response { status, body } => {
                    if 200 <= status < 300 {
                        DeployStateView::Finished { outcome: Ok(()) }
                    } else {
                        finished_err(ErrorView::DeployRejected { status, body })
                    }
                },
            }
        },
        _ => s,
    }
}

/// Whether this state, on this observation, issues the pipeline's one
/// network call.
pub open spec fn deploy_emits_upload(s: DeployStateView, e: DeployEventView) -> bool {
    match (s, e) {
        (DeployStateView::AwaitingArtifact { .. }, DeployEventView::ArtifactRead { bytes }) => {
            bytes is Some
        },
        _ => false,
    }
}

/// What the host must do next.
#[derive(Debug)]
pub enum DeployAction {
    /// Launch the toolchain build and report its outcome.
    RunBuild,
    /// Read the project manifest and report its text.
    ReadManifest,
    /// Read the artifact at this derived path and report its bytes.
    ReadArtifact { path: String },
    /// Send the one authorized multipart upload and report its outcome.
    Upload { url: String, token: String, request: DeployRequest },
    /// Nothing more: the pipeline is finished.
    Stop,
}

/// The packaging step: the artifact's raw bytes, combined untransformed
/// with the project metadata and the selected organization. Bytes absent
/// at the derived path are a failure of their own, distinct from a build
/// failure: they mean the build and the lookup disagree.
pub fn package(
    artifact_bytes: Option<Vec<u8>>,
    name: String,
    description: String,
    organization_id: String,
) -> (r: Result<DeployRequest, CoreError>)
    ensures
        match artifact_bytes {
            Some(b) => r matches Ok(req) && req.name == name && req.description == description
                && req.organization_id == organization_id && req.artifact_bytes == b,
            None => r matches Err(e) && e@ == ErrorView::ArtifactNotFound,
        },
{
    match artifact_bytes {
        Some(b) => Ok(
            DeployRequest { name, description, organization_id, artifact_bytes: b },
        ),
        None => Err(CoreError::ArtifactNotFound),
    }
}

/// The build step's result: `ToolchainUnavailable` when the toolchain
/// could not be launched at all, `BuildFailed` when it ran and exited
/// with failure. The two are never confused.
pub fn interpret_build_outcome(outcome: &BuildOutcome) -> (r: Result<(), CoreError>)
    ensures
        match outcome {
            BuildOutcome::LaunchFailed => r matches Err(e) && e@
                == ErrorView::ToolchainUnavailable,
            BuildOutcome::Completed { success } => if *success {
                r is Ok
            } else {
                r matches Err(e) && e@ == ErrorView::BuildFailed
            },
        },
{
    match outcome {
        BuildOutcome::LaunchFailed => Err(CoreError::ToolchainUnavailable),
        BuildOutcome::Completed { success } => {
            if *success {
                Ok(())
            } else {
                Err(CoreError::BuildFailed)
            }
        },
    }
}

/// The upload's classification: a 2xx status is the one success; any
/// other status is the service's rejection, carried exactly as answered.
pub fn classify_upload_response(status: u16, body: String) -> (r: Result<(), CoreError>)
    ensures
        200 <= status < 300 ==> r is Ok,
        !(200 <= status < 300) ==> (r matches Err(e) && e@ == (ErrorView::DeployRejected {
            status,
            body: body@,
        })),
{
    if 200 <= status && status < 300 {
        Ok(())
    } else {
        Err(CoreError::DeployRejected { status, body })
    }
}

/// One deploy invocation against one base URL.
#[derive(Debug)]
pub struct Deploy {
    pub state: DeployState,
    pub base_url: String,
}

impl Deploy {
    pub fn new(base_url: String) -> (d: Deploy)
        ensures
            d.state@ is Start,
            d.base_url == base_url,
    {
        Deploy { state: DeployState::Start, base_url }
    }

    /// First step: have the host run the build.
    pub fn start(&mut self) -> (a: DeployAction)
        requires
            old(self).state@ is Start,
        ensures
            final(self).state@ is AwaitingBuild,
            final(self).base_url == old(self).base_url,
            a is RunBuild,
    {
        self.state = DeployState::AwaitingBuild;
        DeployAction::RunBuild
    }

    /// The build ended. A launch failure or a failing exit status finishes
    /// the pipeline with its own error; on success, the stored credential
    /// and organization selection gate the rest — a missing or unreadable
    /// one finishes the pipeline here, before any network call.
    pub fn on_build_outcome(&mut self, outcome: BuildOutcome, store: &CredentialStore) -> (a:
        DeployAction)
        requires
            old(self).state@ is AwaitingBuild,
        ensures
            final(self).state@ == deploy_step(
                old(self).state@,
                DeployEventView::BuildDone { outcome, store: store@ },
            ),
            final(self).base_url == old(self).base_url,
            match final(self).state@ {
                DeployStateView::Finished { .. } => a is Stop,
                _ => a is ReadManifest,
            },
    {
        match outcome {
            BuildOutcome::LaunchFailed => {
                self.state = DeployState::Finished {
                    outcome: Err(CoreError::ToolchainUnavailable),
                };
                return DeployAction::Stop;
            },
            BuildOutcome::Completed { success } => {
                if !success {
                    self.state = DeployState::Finished { outcome: Err(CoreError::BuildFailed) };
                    return DeployAction::Stop;
                }
            },
        }
        let token = match store.load_auth_token() {
            Ok(t) => t,
            Err(e) => {
                self.state = DeployState::Finished { outcome: Err(e) };
                return DeployAction::Stop;
            },
        };
        let organization_id = match store.load_selected_organization_id() {
            Ok(o) => o,
            Err(e) => {
                self.state = DeployState::Finished { outcome: Err(e) };
                return DeployAction::Stop;
            },
        };
        self.state = DeployState::AwaitingManifest { token, organization_id };
        DeployAction::ReadManifest
    }

    /// The manifest was read, or could not be. Its name and description
    /// are extracted here; an unreadable or unusable manifest finishes the
    /// pipeline. With the metadata in hand, the next duty is to read the
    /// artifact at the path derived from the sanitized project name.
    pub fn on_manifest(&mut self, manifest_text: Option<String>) -> (a: DeployAction)
        requires
            old(self).state@ is AwaitingManifest,
        ensures
            final(self).state@ == deploy_step(
                old(self).state@,
                DeployEventView::ManifestRead {
                    text: match manifest_text {
                        Some(t) => Some(t@),
                        None => None,
                    },
                },
            ),
            final(self).base_url == old(self).base_url,
            match final(self).state@ {
                DeployStateView::Finished { .. } => a is Stop,
                DeployStateView::AwaitingArtifact { name, .. } => a matches
                    DeployAction::ReadArtifact { path } && path@
                    == "./target/wasm32-unknown-unknown/release/"@ + sanitized(name) + ".wasm"@,
                _ => false,
            },
    {
        let text = match manifest_text {
            Some(t) => t,
            None => {
                self.state = DeployState::Finished { outcome: Err(CoreError::StorageError) };
                return DeployAction::Stop;
            },
        };
        let (name, description) = match get_package_metadata(text.as_str()) {
            Ok(nd) => nd,
            Err(e) => {
                self.state = DeployState::Finished { outcome: Err(e) };
                return DeployAction::Stop;
            },
        };
        let (token, organization_id) = match &self.state {
            DeployState::AwaitingManifest { token, organization_id } => (
                token.clone(),
                organization_id.clone(),
            ),
            _ => unreached(),
        };
        let path = artifact_path(name.as_str());
        self.state = DeployState::AwaitingArtifact { token, organization_id, name, description };
        DeployAction::ReadArtifact { path }
    }

    /// The artifact was read at the derived path, or was not there. With
    /// bytes in hand the request is packaged and handed out as the one
    /// upload, addressed to the programs endpoint and authorized by the
    /// stored token.
    pub fn on_artifact(&mut self, artifact_bytes: Option<Vec<u8>>) -> (a: DeployAction)
        requires
            old(self).state@ is AwaitingArtifact,
        ensures
            final(self).state@ == deploy_step(
                old(self).state@,
                DeployEventView::ArtifactRead {
                    bytes: match artifact_bytes {
                        Some(b) => Some(b@),
                        None => None,
                    },
                },
            ),
            final(self).base_url == old(self).base_url,
            match old(self).state@ {
                DeployStateView::AwaitingArtifact { token, organization_id, name, description } => {
                    match artifact_bytes {
                        None => a is Stop,
                        Some(bytes) => a matches DeployAction::Upload { url, token: tk, request }
                            && url@ == old(self).base_url@ + "/programs"@ && tk@ == token
                            && request.name@ == name && request.description@ == description
                            && request.organization_id@ == organization_id
                            && request.artifact_bytes@ == bytes@,
                    }
                },
                _ => false,
            },
    {
        let (token, organization_id, name, description) = match &self.state {
            DeployState::AwaitingArtifact { token, organization_id, name, description } => (
                token.clone(),
                organization_id.clone(),
                name.clone(),
                description.clone(),
            ),
            _ => unreached(),
        };
        match package(artifact_bytes, name, description, organization_id) {
            Ok(request) => {
                let url = programs_url(self.base_url.as_str());
                self.state = DeployState::AwaitingUpload;
                DeployAction::Upload { url, token, request }
            },
            Err(e) => {
                self.state = DeployState::Finished { outcome: Err(e) };
                DeployAction::Stop
            },
        }
    }

    /// The upload ended: a 2xx response finishes the pipeline deployed,
    /// any other response finishes it rejected as the service answered,
    /// and no response at all finishes it with a network error.
    pub fn on_upload_outcome(&mut self, outcome: UploadOutcome) -> (a: DeployAction)
        requires
            old(self).state@ is AwaitingUpload,
        ensures
            final(self).state@ == deploy_step(
                old(self).state@,
                DeployEventView::UploadDone { outcome: outcome@ },
            ),
            final(self).base_url == old(self).base_url,
            a is Stop,
    {
        match outcome {
            UploadOutcome::TransportFailure => {
                self.state = DeployState::Finished { outcome: Err(CoreError::NetworkError) };
            },
            UploadOutcome::Response { status, body } => {
                let classified = classify_upload_response(status, body);
                self.state = DeployState::Finished { outcome: classified };
            },
        }
        DeployAction::Stop
    }

    /// The finished pipeline's result.
    pub fn outcome(&self) -> (r: &Result<(), CoreError>)
        requires
            self.state@ is Finished,
        ensures
            self.state matches DeployState::Finished { outcome } && r == outcome,
    {
        match &self.state {
            DeployState::Finished { outcome } => outcome,
            _ => unreached(),
        }
    }
}

/// The state after a whole run of observations.
pub open spec fn deploy_run(s: DeployStateView, events: Seq<DeployEventView>) -> DeployStateView
    decreases events.len(),
{
    if events.len() == 0 {
        s
    } else {
        deploy_run(deploy_step(s, events[0]), events.subrange(1, events.len() as int))
    }
}

/// Whether any step of a run issues the upload call.
pub open spec fn run_emits_upload(s: DeployStateView, events: Seq<DeployEventView>) -> bool
    decreases events.len(),
{
    if events.len() == 0 {
        false
    } else {
        deploy_emits_upload(s, events[0]) || run_emits_upload(
            deploy_step(s, events[0]),
            events.subrange(1, events.len() as int),
        )
    }
}

/// A finished pipeline stays finished, and never uploads, whatever else
/// is reported to it.
pub proof fn lemma_finished_absorbs(
    outcome: Result<(), ErrorView>,
    events: Seq<DeployEventView>,
)
    ensures
        deploy_run(DeployStateView::Finished { outcome }, events) == (DeployStateView::Finished {
            outcome,
        }),
        !run_emits_upload(DeployStateView::Finished { outcome }, events),
    decreases events.len(),
{
    if events.len() > 0 {
        lemma_finished_absorbs(outcome, events.subrange(1, events.len() as int));
    }
}

/// Law (build gating): when the build reports failure, the pipeline
/// finishes at once with `BuildFailed` — and whatever is reported
/// afterwards, it stays finished and never packages or uploads anything.
pub proof fn lemma_build_failure_blocks_upload(store: StoreView, events: Seq<DeployEventView>)
    ensures
        ({
            let failure = DeployEventView::BuildDone {
                outcome: BuildOutcome::Completed { success: false },
                store,
            };
            let s1 = deploy_step(DeployStateView::AwaitingBuild, failure);
            &&& s1 == finished_err(ErrorView::BuildFailed)
            &&& deploy_run(s1, events) == s1
            &&& !deploy_emits_upload(DeployStateView::AwaitingBuild, failure)
            &&& !run_emits_upload(s1, events)
        }),
{
    lemma_finished_absorbs(Err(ErrorView::BuildFailed), events);
}

/// Law (precondition gating): with no stored credential, a deploy — even
/// one whose build succeeds — finishes with `NotAuthenticated`, and no
/// observation, then or later, makes it issue a network call.
pub proof fn lemma_missing_credential_blocks_upload(
    outcome: BuildOutcome,
    store: StoreView,
    events: Seq<DeployEventView>,
)
    requires
        store.auth_token is Missing,
    ensures
        ({
            let done = DeployEventView::BuildDone { outcome, store };
            let s1 = deploy_step(DeployStateView::AwaitingBuild, done);
            &&& s1 is Finished
            &&& (outcome matches BuildOutcome::Completed { success: true } ==> s1 == finished_err(
                ErrorView::NotAuthenticated,
            ))
            &&& deploy_run(s1, events) == s1
            &&& !deploy_emits_upload(DeployStateView::AwaitingBuild, done)
            &&& !run_emits_upload(s1, events)
        }),
{
    let done = DeployEventView::BuildDone { outcome, store };
    let s1 = deploy_step(DeployStateView::AwaitingBuild, done);
    match s1 {
        DeployStateView::Finished { outcome: o } => {
            lemma_finished_absorbs(o, events);
        },
        _ => {
            assert(false);
        },
    }
}

} // verus!
