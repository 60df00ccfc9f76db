//! Organizations as the remote service lists them during sign-in. They are
//! transient: only the id the operator selects is ever persisted.

use vstd::prelude::*;

verus! {

/// One organization of the signed-in account.
#[derive(Clone, Debug)]
pub struct Organization {
    pub id: String,
    pub name: String,
}

/// The remote service's answer to the organization listing call.
#[derive(Clone, Debug)]
pub struct OrganizationsResponse {
    pub data: Vec<Organization>,
}

} // verus!
