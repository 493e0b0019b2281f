pub mod plan_error;
pub mod plan_type;

use vstd::prelude::*;
use self::plan_error::PlanError;
use self::plan_type::{BillingStrategy, NewPlan, Plan, PlanFeatures, PlanState, PlanTarget, PlanView};
use crate::utils::domains_ids::{opt_id_view, OrganizationID};

verus! {

/// A plan and the changes that can be made to it.
pub struct PlanEntity {
    props: Plan,
}

/// The plan that a new plan becomes: without an id, everything else as given.
pub open spec fn plan_from_new(new_plan: NewPlan) -> PlanView {
    PlanView {
        id: None,
        name: new_plan.name@,
        price_bits: new_plan.price_bits,
        limit_tenant: new_plan.limit_tenant,
        limit_users: new_plan.limit_users,
        state: new_plan.state,
        features: new_plan.features,
        target: new_plan.target,
        organization_id: opt_id_view(new_plan.organization_id),
        billing_strategy: new_plan.billing_strategy,
    }
}

impl PlanEntity {
    pub closed spec fn props_view(&self) -> PlanView {
        self.props@
    }

    /// A plan to be created from what was asked for.
    pub fn new(new_plan: NewPlan) -> (entity: Self)
        ensures
            entity.props_view() == plan_from_new(new_plan),
    {
        PlanEntity {
            props: Plan {
                id: None,
                name: new_plan.name,
                price_bits: new_plan.price_bits,
                limit_tenant: new_plan.limit_tenant,
                limit_users: new_plan.limit_users,
                state: new_plan.state,
                features: new_plan.features,
                target: new_plan.target,
                organization_id: new_plan.organization_id,
                billing_strategy: new_plan.billing_strategy,
            },
        }
    }

    /// The entity of a stored plan.
    pub fn from_props(props: Plan) -> (entity: Self)
        ensures
            entity.props_view() == props@,
    {
        PlanEntity { props }
    }

    /// The plan as it stands.
    pub fn get_props(&self) -> (props: &Plan)
        ensures
            props@ == self.props_view(),
    {
        &self.props
    }

    /// Renames the plan; an empty name is refused and changes nothing.
    pub fn update_name(&mut self, name: String) -> (res: Result<(), PlanError>)
        ensures
            name@.len() == 0 ==> (res matches Err(PlanError::EmptyName)) && final(self).props_view() == old(self).props_view(),
            name@.len() != 0 ==> res is Ok && final(self).props_view() == (PlanView { name: name@, ..old(self).props_view() }),
    {
        if name.as_str().is_empty() {
            return Err(PlanError::EmptyName);
        }
        self.props.name = name;
        Ok(())
    }

    /// Sets the price, given as the IEEE-754 bits of the number.
    pub fn update_price(&mut self, price_bits: u64) -> (res: Result<(), PlanError>)
        ensures
            res is Ok,
            final(self).props_view() == (PlanView { price_bits, ..old(self).props_view() }),
    {
        self.props.price_bits = price_bits;
        Ok(())
    }

    pub fn update_limits(&mut self, limit_tenant: i32, limit_users: i32) -> (res: Result<(), PlanError>)
        ensures
            res is Ok,
            final(self).props_view() == (PlanView { limit_tenant, limit_users, ..old(self).props_view() }),
    {
        self.props.limit_tenant = limit_tenant;
        self.props.limit_users = limit_users;
        Ok(())
    }

    pub fn update_state(&mut self, state: PlanState) -> (res: Result<(), PlanError>)
        ensures
            res is Ok,
            final(self).props_view() == (PlanView { state, ..old(self).props_view() }),
    {
        self.props.state = state;
        Ok(())
    }

    pub fn update_features(&mut self, features: PlanFeatures) -> (res: Result<(), PlanError>)
        ensures
            res is Ok,
            final(self).props_view() == (PlanView { features, ..old(self).props_view() }),
    {
        self.props.features = features;
        Ok(())
    }

    pub fn update_target(&mut self, target: PlanTarget) -> (res: Result<(), PlanError>)
        ensures
            res is Ok,
            final(self).props_view() == (PlanView { target, ..old(self).props_view() }),
    {
        self.props.target = target;
        Ok(())
    }

    pub fn update_organization_id(&mut self, organization_id: Option<OrganizationID>) -> (res: Result<(), PlanError>)
        ensures
            res is Ok,
            final(self).props_view() == (PlanView { organization_id: opt_id_view(organization_id), ..old(self).props_view() }),
    {
        self.props.organization_id = organization_id;
        Ok(())
    }

    /// Sets the billing strategy. `validation` is what checking the strategy
    /// gave (its percentages are decimal numbers, checked outside): a strategy
    /// that failed it is refused with its message and changes nothing.
    pub fn update_billing_strategy(
        &mut self,
        billing_strategy: Option<BillingStrategy>,
        validation: Result<(), String>,
    ) -> (res: Result<(), PlanError>)
        ensures
            match (billing_strategy, validation) {
                (Some(_), Err(msg)) => (res matches Err(PlanError::InvalidBillingStrategy(m)) && m@ == msg@)
                    && final(self).props_view() == old(self).props_view(),
                _ => res is Ok && final(self).props_view() == (PlanView {
                    billing_strategy,
                    ..old(self).props_view()
                }),
            },
    {
        if billing_strategy.is_some() {
            if let Err(msg) = validation {
                return Err(PlanError::InvalidBillingStrategy(msg));
            }
        }
        self.props.billing_strategy = billing_strategy;
        Ok(())
    }
}

} // verus!
