//! Changes that can be asked of an organization.
use vstd::prelude::*;
use crate::utils::domains_ids::PlanID;

verus! {

#[derive(Debug)]
pub enum OrganizationCommand {
    UpdateName { name: String },
    UpdateState { state: OrganizationState },
    UpdatePlan { plan: PlanID },
}

#[derive(Clone, Copy, Debug, PartialEq, Eq, Structural)]
pub enum OrganizationState {
    Active,
    Inactive,
}

} // verus!
