//! The directory's view of the fleet: one entry per listed server.
//!
//! Entries come from the central hub, one aggregation pass at a time.  The
//! address is raw and untrusted; the name is a human label and plays no part
//! in aggregation.

use vstd::prelude::*;

use crate::normalize::endpoint_wf;
use crate::normalize::normalize_address;
use crate::normalize::normalize_spec;
use crate::normalize::Endpoint;

verus! {

/// One server as the directory lists it.
pub struct ServerEntry {
    pub address: String,
    pub name: String,
}

/// The endpoint a listed server is polled at, when its address can be
/// normalized at all.
pub fn server_endpoint(entry: &ServerEntry) -> (r: Option<Endpoint>)
    ensures
        match r {
            Some(e) => normalize_spec(entry.address@) == Some(e@) && endpoint_wf(e@),
            None => normalize_spec(entry.address@) is None,
        },
{
    normalize_address(entry.address.as_str())
}

} // verus!
