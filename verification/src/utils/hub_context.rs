//! What the hub in front of the service says of a request.
use vstd::prelude::*;

verus! {

/// The tenant, user and role that the hub names; each is empty when not given.
#[derive(Debug)]
pub struct HubContext {
    pub tenant_id: String,
    pub user_id: String,
    pub user_role: String,
}

} // verus!
