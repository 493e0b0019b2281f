//! Plans: what an organization or a tenant is allowed, and how it is billed.
use vstd::prelude::*;
use crate::utils::domains_ids::{opt_id_view, OrganizationID, PlanID};

verus! {

#[derive(Clone, Copy, Debug, PartialEq, Eq, Structural)]
pub enum PlanTarget {
    Organization,
    Tenant,
}

/// The target of a plan that does not name one.
pub fn default_plan_target() -> (target: PlanTarget)
    ensures
        target == PlanTarget::Organization,
{
    PlanTarget::Organization
}

/// Who bills the tenant. The split percentages are carried as the IEEE-754
/// bits of the decimal numbers they stand for.
#[derive(Clone, Copy, Debug, PartialEq, Eq, Structural)]
pub enum BillingStrategy {
    Free,
    Organization,
    Company,
    Split { organization_percentage_bits: u64, company_percentage_bits: u64 },
}

#[derive(Clone, Copy, Debug, PartialEq, Eq, Structural)]
pub enum PlanState {
    Active,
    Inactive,
}

#[derive(Clone, Copy, Debug, PartialEq, Eq, Structural)]
pub struct PlanFeatures {
    pub migration: bool,
}

impl Default for PlanFeatures {
    fn default() -> (features: Self)
        ensures
            !features.migration,
    {
        PlanFeatures { migration: false }
    }
}

/// A stored plan. The price is carried as the IEEE-754 bits of the decimal number.
#[derive(Debug)]
pub struct Plan {
    pub id: Option<PlanID>,
    pub name: String,
    pub price_bits: u64,
    pub limit_tenant: i32,
    pub limit_users: i32,
    pub state: PlanState,
    pub features: PlanFeatures,
    pub target: PlanTarget,
    pub organization_id: Option<OrganizationID>,
    pub billing_strategy: Option<BillingStrategy>,
}

/// A plan still to be stored. The price is carried as IEEE-754 bits.
#[derive(Debug)]
pub struct NewPlan {
    pub name: String,
    pub price_bits: u64,
    pub limit_tenant: i32,
    pub limit_users: i32,
    pub state: PlanState,
    pub features: PlanFeatures,
    pub target: PlanTarget,
    pub organization_id: Option<OrganizationID>,
    pub billing_strategy: Option<BillingStrategy>,
}

pub ghost struct PlanView {
    pub id: Option<Seq<u8>>,
    pub name: Seq<char>,
    pub price_bits: u64,
    pub limit_tenant: i32,
    pub limit_users: i32,
    pub state: PlanState,
    pub features: PlanFeatures,
    pub target: PlanTarget,
    pub organization_id: Option<Seq<u8>>,
    pub billing_strategy: Option<BillingStrategy>,
}

impl View for Plan {
    type V = PlanView;

    open spec fn view(&self) -> PlanView {
        PlanView {
            id: opt_id_view(self.id),
            name: self.name@,
            price_bits: self.price_bits,
            limit_tenant: self.limit_tenant,
            limit_users: self.limit_users,
            state: self.state,
            features: self.features,
            target: self.target,
            organization_id: opt_id_view(self.organization_id),
            billing_strategy: self.billing_strategy,
        }
    }
}

impl Plan {
    /// A copy of the plan.
    pub fn duplicate(&self) -> (copy: Plan)
        ensures
            copy@ == self@,
    {
        Plan {
            id: self.id,
            name: self.name.clone(),
            price_bits: self.price_bits,
            limit_tenant: self.limit_tenant,
            limit_users: self.limit_users,
            state: self.state,
            features: self.features,
            target: self.target,
            organization_id: self.organization_id,
            billing_strategy: self.billing_strategy,
        }
    }
}

} // verus!
