use vstd::prelude::*;

verus! {

/// Every failure the core can report. Nothing in the library aborts the
/// process: each operation returns one of these and the host renders it
/// and exits non-zero.
#[derive(Clone, Debug)]
pub enum CoreError {
    /// No credential is stored locally.
    NotAuthenticated,
    /// No organization selection is stored locally.
    NoOrganizationSelected,
    /// The operator picked an organization index of 0 or past the end of
    /// the listed organizations.
    InvalidChoice,
    /// The external toolchain could not even be launched.
    ToolchainUnavailable,
    /// The external toolchain ran and exited with a failure status.
    BuildFailed,
    /// No artifact exists at the path the build step derived.
    ArtifactNotFound,
    /// A transport-level network failure (no HTTP status was obtained).
    NetworkError,
    /// The remote service answered the upload with a non-success status.
    DeployRejected { status: u16, body: String },
    /// A local filesystem failure: an unresolvable configuration root, an
    /// unreadable state file, or an unusable project manifest.
    StorageError,
}

/// The mathematical value of a `CoreError`, with strings as `Seq<char>`.
pub enum ErrorView {
    NotAuthenticated,
    NoOrganizationSelected,
    InvalidChoice,
    ToolchainUnavailable,
    BuildFailed,
    ArtifactNotFound,
    NetworkError,
    DeployRejected { status: u16, body: Seq<char> },
    StorageError,
}

impl View for CoreError {
    type V = ErrorView;

    open spec fn view(&self) -> ErrorView {
        match self {
            CoreError::NotAuthenticated => ErrorView::NotAuthenticated,
            CoreError::NoOrganizationSelected => ErrorView::NoOrganizationSelected,
            CoreError::InvalidChoice => ErrorView::InvalidChoice,
            CoreError::ToolchainUnavailable => ErrorView::ToolchainUnavailable,
            CoreError::BuildFailed => ErrorView::BuildFailed,
            CoreError::ArtifactNotFound => ErrorView::ArtifactNotFound,
            CoreError::NetworkError => ErrorView::NetworkError,
            CoreError::DeployRejected { status, body } => ErrorView::DeployRejected {
                status: *status,
                body: body@,
            },
            CoreError::StorageError => ErrorView::StorageError,
        }
    }
}

} // verus!
