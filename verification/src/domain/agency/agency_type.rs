//! Agencies: a name, a plan, a state, limits and the users that belong to them.
use vstd::prelude::*;
use crate::commands::agency_command::AgencyState;
use crate::domain::tenant::tenant_type::strings_view;
use crate::utils::domains_ids::{opt_id_view, AgencyID, PlanID};

verus! {

#[derive(Debug)]
pub struct Agency {
    pub id: Option<AgencyID>,
    pub name: String,
    pub plan: PlanID,
    pub state: AgencyState,
    pub limits: AgencyLimits,
    pub users: Vec<String>,
}

#[derive(Clone, Copy, Debug, PartialEq, Eq, Structural)]
pub struct AgencyLimits {
    pub max_tenants: i32,
}

#[derive(Debug)]
pub struct NewAgency {
    pub name: String,
    pub plan: PlanID,
    pub state: AgencyState,
    pub limits: AgencyLimits,
    pub users: Vec<String>,
}

pub ghost struct AgencyView {
    pub id: Option<Seq<u8>>,
    pub name: Seq<char>,
    pub plan: Seq<u8>,
    pub state: AgencyState,
    pub limits: AgencyLimits,
    pub users: Seq<Seq<char>>,
}

impl View for Agency {
    type V = AgencyView;

    open spec fn view(&self) -> AgencyView {
        AgencyView {
            id: opt_id_view(self.id),
            name: self.name@,
            plan: self.plan@,
            state: self.state,
            limits: self.limits,
            users: strings_view(self.users@),
        }
    }
}

impl Agency {
    /// A copy of the agency.
    pub fn duplicate(&self) -> (copy: Agency)
        ensures
            copy@ == self@,
    {
        Agency {
            id: self.id,
            name: self.name.clone(),
            plan: self.plan,
            state: self.state,
            limits: self.limits,
            users: crate::domain::tenant::menu::duplicate_strings(&self.users),
        }
    }
}

} // verus!
