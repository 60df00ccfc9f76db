//! A previously uploaded program's metadata record, as the remote service
//! reports it. Every field may be absent, and the record is read-only:
//! it exists for display.

use vstd::prelude::*;

verus! {

/// One remote program record. Identifiers and timestamps are carried as
/// the strings the service sent.
#[derive(Clone, Debug)]
pub struct Program {
    pub id: Option<String>,
    pub name: Option<String>,
    pub description: Option<String>,
    pub path: Option<String>,
    pub size: Option<i32>,
    pub organization_id: Option<String>,
    pub updated_at: Option<String>,
    pub created_at: Option<String>,
}

impl Default for Program {
    /// A record with every field absent.
    fn default() -> (d: Program)
        ensures
            d.id is None,
            d.name is None,
            d.description is None,
            d.path is None,
            d.size is None,
            d.organization_id is None,
            d.updated_at is None,
            d.created_at is None,
    {
        Program {
            id: None,
            name: None,
            description: None,
            path: None,
            size: None,
            organization_id: None,
            updated_at: None,
            created_at: None,
        }
    }
}

} // verus!
