//! Organizations: a name, a plan, a state and limits.
use vstd::prelude::*;
use crate::commands::organization_command::OrganizationState;
use crate::utils::domains_ids::{opt_id_view, OrganizationID, PlanID};

verus! {

#[derive(Debug)]
pub struct Organization {
    pub id: Option<OrganizationID>,
    pub name: String,
    pub plan: PlanID,
    pub state: OrganizationState,
    pub limits: OrganizationLimits,
}

#[derive(Clone, Copy, Debug, PartialEq, Eq, Structural)]
pub struct OrganizationLimits {
    pub max_tenants: i32,
}

#[derive(Debug)]
pub struct NewOrganization {
    pub name: String,
    pub plan: PlanID,
    pub state: OrganizationState,
    pub limits: OrganizationLimits,
}

pub ghost struct OrganizationView {
    pub id: Option<Seq<u8>>,
    pub name: Seq<char>,
    pub plan: Seq<u8>,
    pub state: OrganizationState,
    pub limits: OrganizationLimits,
}

impl View for Organization {
    type V = OrganizationView;

    open spec fn view(&self) -> OrganizationView {
        OrganizationView {
            id: opt_id_view(self.id),
            name: self.name@,
            plan: self.plan@,
            state: self.state,
            limits: self.limits,
        }
    }
}

impl Organization {
    /// A copy of the organization.
    pub fn duplicate(&self) -> (copy: Organization)
        ensures
            copy@ == self@,
    {
        Organization {
            id: self.id,
            name: self.name.clone(),
            plan: self.plan,
            state: self.state,
            limits: self.limits,
        }
    }
}

} // verus!
