//! The program lister: the read-only query for previously uploaded
//! programs. Its preconditions are the deploy pipeline's credential
//! checks, performed locally before the one network call; its answer is
//! classified so that an empty listing is a success and only a transport
//! failure is an error. No outcome of a listing mutates any local state:
//! nothing here takes the store mutably.

use crate::errors::{CoreError, ErrorView};
use crate::program::Program;
use crate::response::Response;
use crate::store::{CredentialStore, SlotView};
use vstd::prelude::*;

verus! {

/// The one authenticated listing call: the fixed first page of 100,
/// scoped to the selected organization, authorized by the stored token.
pub struct ListRequest {
    pub page: u32,
    pub page_size: u32,
    pub organization_id: String,
    pub token: String,
}

/// How the listing call ended, as the host observed it.
pub enum ListOutcome {
    /// An answered, decoded listing.
    Response(Response<Vec<Program>>),
    /// No usable answer: a transport failure, a timeout, or a body that
    /// could not be decoded.
    TransportFailure,
}

/// The listing command.
#[derive(Clone, Debug)]
pub struct List {}

impl List {
    /// The local preconditions: a stored credential and a stored
    /// organization selection, both checked — and reported — before any
    /// network call is attempted.
    pub fn prepare(&self, store: &CredentialStore) -> (r: Result<ListRequest, CoreError>)
        ensures
            match store@.auth_token {
                SlotView::Missing => r matches Err(e) && e@ == ErrorView::NotAuthenticated,
                SlotView::Unreadable => r matches Err(e) && e@ == ErrorView::StorageError,
                SlotView::Contents(_) => match store@.organization_id_selected {
                    SlotView::Missing => r matches Err(e) && e@
                        == ErrorView::NoOrganizationSelected,
                    SlotView::Unreadable => r matches Err(e) && e@ == ErrorView::StorageError,
                    SlotView::Contents(_) => r matches Ok(req) && req.page == 1 && req.page_size
                        == 100 && Some(req.token@) == store@.loaded_auth_token() && Some(
                        req.organization_id@,
                    ) == store@.loaded_organization_id(),
                },
            },
    {
        let token = match store.load_auth_token() {
            Ok(t) => t,
            Err(e) => {
                return Err(e);
            },
        };
        let organization_id = match store.load_selected_organization_id() {
            Ok(o) => o,
            Err(e) => {
                return Err(e);
            },
        };
        Ok(ListRequest { page: 1, page_size: 100, organization_id, token })
    }

    /// The ended listing call. A transport failure is `NetworkError`. In
    /// an answer, an absent `data` and an empty `data` both mean "no
    /// programs yet": a valid outcome, not an error.
    pub fn interpret(&self, outcome: ListOutcome) -> (r: Result<Vec<Program>, CoreError>)
        ensures
            match outcome {
                ListOutcome::TransportFailure => r matches Err(e) && e@ == ErrorView::NetworkError,
                ListOutcome::Response(response) => match response.data {
                    Some(v) => r matches Ok(p) && p == v,
                    None => r matches Ok(p) && p@ == Seq::<Program>::empty(),
                },
            },
    {
        match outcome {
            ListOutcome::TransportFailure => Err(CoreError::NetworkError),
            ListOutcome::Response(response) => match response.data {
                Some(v) => Ok(v),
                None => Ok(Vec::new()),
            },
        }
    }
}

} // verus!
