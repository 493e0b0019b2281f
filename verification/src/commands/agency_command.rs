//! Changes that can be asked of an agency.
use vstd::prelude::*;
use crate::utils::domains_ids::PlanID;

verus! {

#[derive(Debug)]
pub enum AgencyCommand {
    UpdateName { name: String },
    UpdateState { state: AgencyState },
    UpdatePlan { plan: PlanID },
    AddUser { user_id: String },
    RemoveUser { user_id: String },
}

#[derive(Clone, Copy, Debug, PartialEq, Eq, Structural)]
pub enum AgencyState {
    Active,
    Inactive,
}

} // verus!
