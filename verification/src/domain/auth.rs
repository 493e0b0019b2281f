//! What a user sends to log in.
use vstd::prelude::*;
use crate::utils::domains_ids::{OrganizationID, TenantID};

verus! {

/// A login request: the credentials and, when given, the tenant and the
/// organization the user logs in to.
#[derive(Clone, Debug)]
pub struct AuthLogin {
    pub username: String,
    pub password: String,
    pub tenant_id: Option<TenantID>,
    pub organization_id: Option<OrganizationID>,
}

} // verus!
