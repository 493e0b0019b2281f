//! Changes that can be asked of a plan.
use vstd::prelude::*;
use crate::domain::plans::plan_type::{BillingStrategy, PlanFeatures, PlanState, PlanTarget};
use crate::utils::domains_ids::OrganizationID;

verus! {

/// A price is carried as the IEEE-754 bits of the decimal number it stands for.
#[derive(Debug)]
pub enum PlanCommand {
    UpdateName { name: String },
    UpdatePrice { price_bits: u64 },
    UpdateLimits { limit_tenant: i32, limit_users: i32 },
    UpdateState { state: PlanState },
    UpdateFeatures { features: PlanFeatures },
    UpdateTarget { target: PlanTarget },
    UpdateOrganizationId { organization_id: Option<OrganizationID> },
    UpdateBillingStrategy { billing_strategy: Option<BillingStrategy> },
}

} // verus!
