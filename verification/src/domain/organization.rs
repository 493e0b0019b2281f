pub mod organization_error;
pub mod organization_type;

use vstd::prelude::*;
use self::organization_error::OrganizationError;
use self::organization_type::{NewOrganization, Organization, OrganizationView};
use crate::commands::organization_command::OrganizationState;
use crate::utils::domains_ids::PlanID;

verus! {

/// An organization and the changes that can be made to it.
pub struct OrganizationEntity {
    props: Organization,
}

impl OrganizationEntity {
    pub closed spec fn props_view(&self) -> OrganizationView {
        self.props@
    }

    /// An organization to be created from what was asked for, without an id.
    pub fn new(new_organization: NewOrganization) -> (entity: Self)
        ensures
            entity.props_view() == (OrganizationView {
                id: None,
                name: new_organization.name@,
                plan: new_organization.plan@,
                state: new_organization.state,
                limits: new_organization.limits,
            }),
    {
        OrganizationEntity {
            props: Organization {
                id: None,
                name: new_organization.name,
                plan: new_organization.plan,
                state: new_organization.state,
                limits: new_organization.limits,
            },
        }
    }

    /// The entity of a stored organization.
    pub fn from_props(props: Organization) -> (entity: Self)
        ensures
            entity.props_view() == props@,
    {
        OrganizationEntity { props }
    }

    /// The organization as it stands.
    pub fn get_props(&self) -> (props: &Organization)
        ensures
            props@ == self.props_view(),
    {
        &self.props
    }

    /// Renames the organization; an empty name is refused and changes nothing.
    pub fn update_name(&mut self, name: String) -> (res: Result<(), OrganizationError>)
        ensures
            name@.len() == 0 ==> (res matches Err(OrganizationError::EmptyName)) && final(self).props_view() == old(self).props_view(),
            name@.len() != 0 ==> res is Ok && final(self).props_view() == (OrganizationView { name: name@, ..old(self).props_view() }),
    {
        if name.as_str().is_empty() {
            return Err(OrganizationError::EmptyName);
        }
        self.props.name = name;
        Ok(())
    }

    pub fn update_state(&mut self, state: OrganizationState) -> (res: Result<(), OrganizationError>)
        ensures
            res is Ok,
            final(self).props_view() == (OrganizationView { state, ..old(self).props_view() }),
    {
        self.props.state = state;
        Ok(())
    }

    pub fn update_plan(&mut self, plan: PlanID) -> (res: Result<(), OrganizationError>)
        ensures
            res is Ok,
            final(self).props_view() == (OrganizationView { plan: plan@, ..old(self).props_view() }),
    {
        self.props.plan = plan;
        Ok(())
    }
}

} // verus!
