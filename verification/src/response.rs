//! The remote service's paged response envelope. Every field may be
//! absent; an absent `data` carries the same meaning as an empty one.

use vstd::prelude::*;

verus! {

/// A paged response from the remote service, around a payload `T`.
#[derive(Clone, Debug)]
pub struct Response<T> {
    pub data: Option<T>,
    pub message: Option<String>,
    pub page: Option<u32>,
    pub page_size: Option<u32>,
    pub total_items: Option<u64>,
    pub total_pages: Option<u32>,
}

} // verus!
